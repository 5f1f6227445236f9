use molekular::atom::Atom;
use molekular::particle::Particle;
use molekular::particle::ParticleProperty;
use molekular::particle::ParticleVector;
use molekular::particle::SubatomicParticleType;
use molekular::particle::Trace;
use molekular::scalar::Scalar;
use molekular::vector::Vector3;

fn s(x: f64) -> Scalar {
    Scalar::from_bits(x.to_bits())
}

fn f(x: Scalar) -> f64 {
    f64::from_bits(x.to_bits())
}

fn v(x: f64, y: f64, z: f64) -> Vector3 {
    Vector3::new(s(x), s(y), s(z))
}

fn triple(a: Vector3) -> (f64, f64, f64) {
    (f(a.x), f(a.y), f(a.z))
}

fn floats(xs: Vec<Scalar>) -> Vec<f64> {
    let mut out = Vec::new();
    for x in xs {
        out.push(f(x));
    }
    out
}

#[test]
fn radius_by_type() {
    assert_eq!(f(Particle::get_radius(SubatomicParticleType::Proton)), 2.83e-10 * 1e-2);
    assert_eq!(f(Particle::get_radius(SubatomicParticleType::Neutron)), 2.83e-10 * 1e-2);
    assert_eq!(f(Particle::get_radius(SubatomicParticleType::Electron)), 0.81794e-10 * 1e-2);
}

#[test]
fn color_by_type() {
    let (r, g, b) = Particle::get_color(SubatomicParticleType::Proton);
    assert_eq!((f(r), f(g), f(b)), (1.0, 1.0, 1.0));
    let (r, g, b) = Particle::get_color(SubatomicParticleType::Neutron);
    assert_eq!((f(r), f(g), f(b)), (1.0, 1.0, 1.0));
    let (r, g, b) = Particle::get_color(SubatomicParticleType::Electron);
    assert_eq!((f(r), f(g), f(b)), (0.3, 0.3, 1.0));
}

#[test]
fn new_particle_rests_at_the_origin() {
    let p = Particle::new(SubatomicParticleType::Neutron, s(1.67492749804e-27), s(0.0));
    assert_eq!(p.particle_type, SubatomicParticleType::Neutron);
    assert_eq!(f(p.m), 1.67492749804e-27);
    assert_eq!(p.q.to_bits(), 0);
    assert_eq!(p.e.to_bits(), 0);
    assert_eq!(f(p.r), 2.83e-10 * 1e-2);
    assert_eq!(triple(p.pos), (0.0, 0.0, 0.0));
    assert_eq!(triple(p.v), (0.0, 0.0, 0.0));
    assert_eq!(triple(p.a), (0.0, 0.0, 0.0));
    assert_eq!(p.get_log_size(), 0);
}

#[test]
fn electron_factory_constants() {
    let p = Particle::create_electron(v(1.0, 2.0, 3.0));
    assert_eq!(p.particle_type, SubatomicParticleType::Electron);
    assert_eq!(f(p.m), 9.1093837015e-31);
    assert_eq!(f(p.q), -1.6e-19);
    assert_eq!(f(p.r), 0.81794e-10 * 1e-2);
    assert_eq!(p.e.to_bits(), 0);
    assert_eq!(triple(p.pos), (1.0, 2.0, 3.0));
    assert_eq!(triple(p.v), (0.0, 0.0, 0.0));
    assert_eq!(triple(p.a), (0.0, 0.0, 0.0));
}

#[test]
fn proton_factory_constants() {
    let p = Particle::create_proton(v(-1.0, 0.5, 0.0));
    assert_eq!(p.particle_type, SubatomicParticleType::Proton);
    assert_eq!(f(p.m), 1.67262192369e-27);
    assert_eq!(f(p.q), 1.6e-19);
    assert_eq!(f(p.r), 2.83e-10 * 1e-2);
    assert_eq!(p.e.to_bits(), 0);
    assert_eq!(triple(p.pos), (-1.0, 0.5, 0.0));
    assert_eq!(triple(p.v), (0.0, 0.0, 0.0));
    assert_eq!(triple(p.a), (0.0, 0.0, 0.0));
}

#[test]
fn electron_and_proton_charges_are_opposite() {
    let e = Particle::create_electron(Vector3::zeros());
    let p = Particle::create_proton(Vector3::zeros());
    assert_eq!(f(e.q).abs(), 1.6e-19);
    assert_eq!(f(p.q).abs(), 1.6e-19);
    assert!(f(e.q) < 0.0);
    assert!(f(p.q) > 0.0);
    assert_eq!(e.q.abs().to_bits(), p.q.to_bits());
    assert_eq!(f(p.m) / f(e.m), 1.67262192369e-27 / 9.1093837015e-31);
    assert!(p.m.is_positive());
    assert!(e.m.is_positive());
}

#[test]
fn get_property_reads_the_current_value() {
    let mut p = Particle::create_electron(v(1.0, 2.0, 3.0));
    p.v = v(4.0, 5.0, 6.0);
    p.a = v(7.0, 8.0, 9.0);
    assert_eq!(triple(p.get_property(&ParticleProperty::Position)), (1.0, 2.0, 3.0));
    assert_eq!(triple(p.get_property(&ParticleProperty::Velocity)), (4.0, 5.0, 6.0));
    assert_eq!(triple(p.get_property(&ParticleProperty::Accelleration)), (7.0, 8.0, 9.0));
}

#[test]
fn nothing_logged_gives_empty_data() {
    let p = Particle::create_proton(v(1.0, 2.0, 3.0));
    assert_eq!(p.get_log_size(), 0);
    assert!(p.get_debug_data(&ParticleProperty::Position, ParticleVector::X).is_empty());
    assert!(p.get_debug_data(&ParticleProperty::Velocity, ParticleVector::Y).is_empty());
    assert!(p.get_debug_data(&ParticleProperty::Accelleration, ParticleVector::Z).is_empty());
}

#[test]
fn log_appends_one_snapshot_of_each_property() {
    let mut p = Particle::create_electron(v(1.0, 2.0, 3.0));
    p.v = v(4.0, 5.0, 6.0);
    p.a = v(7.0, 8.0, 9.0);
    p.log_debug_data();
    assert_eq!(p.get_log_size(), 1);
    p.pos = v(10.0, 20.0, 30.0);
    p.v = v(40.0, 50.0, 60.0);
    p.a = v(70.0, 80.0, 90.0);
    p.log_debug_data();
    assert_eq!(p.get_log_size(), 2);
    assert_eq!(floats(p.get_debug_data(&ParticleProperty::Position, ParticleVector::X)), vec![1.0, 10.0]);
    assert_eq!(floats(p.get_debug_data(&ParticleProperty::Position, ParticleVector::Y)), vec![2.0, 20.0]);
    assert_eq!(floats(p.get_debug_data(&ParticleProperty::Position, ParticleVector::Z)), vec![3.0, 30.0]);
    assert_eq!(floats(p.get_debug_data(&ParticleProperty::Velocity, ParticleVector::X)), vec![4.0, 40.0]);
    assert_eq!(floats(p.get_debug_data(&ParticleProperty::Velocity, ParticleVector::Y)), vec![5.0, 50.0]);
    assert_eq!(floats(p.get_debug_data(&ParticleProperty::Velocity, ParticleVector::Z)), vec![6.0, 60.0]);
    assert_eq!(floats(p.get_debug_data(&ParticleProperty::Accelleration, ParticleVector::X)), vec![7.0, 70.0]);
    assert_eq!(floats(p.get_debug_data(&ParticleProperty::Accelleration, ParticleVector::Y)), vec![8.0, 80.0]);
    assert_eq!(floats(p.get_debug_data(&ParticleProperty::Accelleration, ParticleVector::Z)), vec![9.0, 90.0]);
}

#[test]
fn log_leaves_the_physical_state_alone() {
    let mut p = Particle::create_electron(v(1.0, 2.0, 3.0));
    p.log_debug_data();
    assert_eq!(triple(p.pos), (1.0, 2.0, 3.0));
    assert_eq!(f(p.m), 9.1093837015e-31);
    assert_eq!(f(p.q), -1.6e-19);
    assert_eq!(p.particle_type, SubatomicParticleType::Electron);
}

#[test]
fn clone_copies_state_and_history() {
    let mut p = Particle::create_electron(v(1.0, 2.0, 3.0));
    p.log_debug_data();
    let mut c = p.clone();
    assert_eq!(triple(c.pos), (1.0, 2.0, 3.0));
    assert_eq!(f(c.m), f(p.m));
    assert_eq!(f(c.q), f(p.q));
    assert_eq!(c.particle_type, SubatomicParticleType::Electron);
    assert_eq!(c.get_log_size(), 1);
    c.pos = v(9.0, 9.0, 9.0);
    c.log_debug_data();
    assert_eq!(c.get_log_size(), 2);
    assert_eq!(p.get_log_size(), 1);
    assert_eq!(floats(p.get_debug_data(&ParticleProperty::Position, ParticleVector::X)), vec![1.0]);
    assert_eq!(floats(c.get_debug_data(&ParticleProperty::Position, ParticleVector::X)), vec![1.0, 9.0]);
}

#[test]
fn trace_records_and_projects() {
    let mut t = Trace::new();
    assert_eq!(t.len(&ParticleProperty::Position), 0);
    assert!(t.project(&ParticleProperty::Velocity, ParticleVector::X).is_empty());
    t.record(v(1.0, 2.0, 3.0), v(4.0, 5.0, 6.0), v(7.0, 8.0, 9.0));
    t.record(v(-1.0, -2.0, -3.0), v(-4.0, -5.0, -6.0), v(-7.0, -8.0, -9.0));
    assert_eq!(t.len(&ParticleProperty::Position), 2);
    assert_eq!(t.len(&ParticleProperty::Velocity), 2);
    assert_eq!(t.len(&ParticleProperty::Accelleration), 2);
    assert_eq!(floats(t.project(&ParticleProperty::Position, ParticleVector::Y)), vec![2.0, -2.0]);
    assert_eq!(floats(t.project(&ParticleProperty::Velocity, ParticleVector::Z)), vec![6.0, -6.0]);
    assert_eq!(floats(t.project(&ParticleProperty::Accelleration, ParticleVector::X)), vec![7.0, -7.0]);
    let c = t.clone();
    t.record(v(0.0, 0.0, 0.0), v(0.0, 0.0, 0.0), v(0.0, 0.0, 0.0));
    assert_eq!(c.len(&ParticleProperty::Position), 2);
    assert_eq!(t.len(&ParticleProperty::Position), 3);
}

#[test]
fn apply_force_is_forward_euler() {
    let mut p = Particle::new(SubatomicParticleType::Proton, s(2.0), s(0.0));
    p.pos = v(1.0, 1.0, 1.0);
    p.v = v(1.0, 0.0, -1.0);
    p.apply_force(v(4.0, -2.0, 0.0), s(0.5));
    assert_eq!(triple(p.a), (2.0, -1.0, 0.0));
    assert_eq!(triple(p.v), (2.0, -0.5, -1.0));
    assert_eq!(triple(p.pos), (2.0, 0.75, 0.5));
    assert_eq!(f(p.m), 2.0);
    assert_eq!(p.get_log_size(), 0);
}

#[test]
fn hydrogen_has_one_electron_at_the_orbit_radius() {
    let atom = Atom::create_hidrogen(v(1.0, 2.0, 3.0));
    assert_eq!(atom.electrons.len(), 1);
    assert_eq!(atom.nucleus.particle_type, SubatomicParticleType::Proton);
    assert_eq!(atom.electrons[0].particle_type, SubatomicParticleType::Electron);
    assert_eq!(triple(atom.nucleus.pos), (1.0, 2.0, 3.0));
    assert_eq!(triple(atom.electrons[0].pos), (1.0 + 0.05e-9, 2.0, 3.0));
    assert_eq!(triple(atom.electrons[0].v), (0.0, 0.0, 0.0));
    assert_eq!(triple(atom.nucleus.v), (0.0, 0.0, 0.0));
}

#[test]
fn hydrogen_at_the_origin() {
    let atom = Atom::create_hidrogen(Vector3::zeros());
    assert_eq!(atom.electrons[0].pos.x.to_bits(), 0x3DCB_7CDF_D9D7_BDBB);
    assert_eq!(triple(atom.electrons[0].pos), (0.05e-9, 0.0, 0.0));
    assert_eq!(triple(atom.nucleus.pos), (0.0, 0.0, 0.0));
    assert_eq!(f(atom.electrons[0].q), -1.6e-19);
    assert_eq!(f(atom.nucleus.q), 1.6e-19);
}
