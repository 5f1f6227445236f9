use crate::scalar::Scalar;
use crate::vector::Vector3;
use vstd::prelude::*;

verus! {

/// Rest mass of the electron, 9.1093837015e-31 kg.
pub const ELECTRON_MASS_BITS: u64 = 0x39B2_79DC_C8B6_B7ED;

/// Rest mass of the proton, 1.67262192369e-27 kg.
pub const PROTON_MASS_BITS: u64 = 0x3A60_9099_B1EA_A2C5;

/// The elementary charge as this model rounds it, 1.6e-19 C: the charge of
/// the proton.
pub const PROTON_CHARGE_BITS: u64 = 0x3C07_9CA1_0C92_4223;

/// The charge of the electron, -1.6e-19 C: the proton's with the sign set.
pub const ELECTRON_CHARGE_BITS: u64 = 0xBC07_9CA1_0C92_4223;

/// Display radius of a proton or neutron, 2.83e-10 m scaled by 1e-2.
pub const PROTON_RENDER_RADIUS_BITS: u64 = 0x3D88_E497_EDD4_2B35;

/// Display radius of an electron, 0.81794e-10 m scaled by 1e-2.
pub const ELECTRON_RENDER_RADIUS_BITS: u64 = 0x3D6C_C759_3B1F_F2E0;

/// 1.0, full intensity of a colour channel.
pub const FULL_INTENSITY_BITS: u64 = 0x3FF0_0000_0000_0000;

/// 0.3, the red and green channels of an electron.
pub const DIM_INTENSITY_BITS: u64 = 0x3FD3_3333_3333_3333;

#[derive(Debug, Clone, Copy, PartialEq, Eq, Structural)]
pub enum SubatomicParticleType {
    Proton,
    Neutron,
    Electron,
}

/// A property of a particle whose history can be recorded.
#[derive(Debug, Clone, Copy, Hash, PartialEq, Eq, Structural)]
pub enum ParticleProperty {
    Position,
    Velocity,
    Accelleration,
}

/// An axis of a vector.
#[derive(Debug, Clone, Copy, PartialEq, Eq, Structural)]
pub enum ParticleVector {
    X,
    Y,
    Z,
}

impl ParticleVector {
    /// The component of `v` along this axis.
    pub open spec fn component(self, v: Vector3) -> Scalar {
        match self {
            ParticleVector::X => v.x,
            ParticleVector::Y => v.y,
            ParticleVector::Z => v.z,
        }
    }

    pub fn select(self, v: Vector3) -> (r: Scalar)
        ensures
            r == self.component(v),
    {
        match self {
            ParticleVector::X => v.x,
            ParticleVector::Y => v.y,
            ParticleVector::Z => v.z,
        }
    }
}

/// The recorded history of one particle: one append-only sequence for each
/// tracked property.
#[derive(Debug)]
pub struct Trace {
    position: Vec<Vector3>,
    velocity: Vec<Vector3>,
    accelleration: Vec<Vector3>,
}

/// What a history holds: the snapshots of each property, oldest first.
pub struct TraceView {
    pub positions: Seq<Vector3>,
    pub velocities: Seq<Vector3>,
    pub accellerations: Seq<Vector3>,
}

/// A point mass that carries a charge.
#[derive(Debug)]
pub struct Particle {
    /// Position [m].
    pub pos: Vector3,
    /// Velocity [m/s].
    pub v: Vector3,
    /// Acceleration [m/s^2].
    pub a: Vector3,
    /// Mass [kg].
    pub m: Scalar,
    /// Display radius [m].
    pub r: Scalar,
    /// Potential energy [kcal/mol].
    pub e: Scalar,
    /// Electrical charge [C].
    pub q: Scalar,
    pub particle_type: SubatomicParticleType,
    /// Recorded history, empty until the first snapshot.
    pub data_trace: Trace,
}

/// What a particle is: its physical state and its recorded history.
pub struct ParticleView {
    pub pos: Vector3,
    pub v: Vector3,
    pub a: Vector3,
    pub m: Scalar,
    pub r: Scalar,
    pub e: Scalar,
    pub q: Scalar,
    pub particle_type: SubatomicParticleType,
    pub history: TraceView,
}

/// The display radius of a particle of the given type.
pub open spec fn radius_of(particle_type: SubatomicParticleType) -> Scalar {
    match particle_type {
        SubatomicParticleType::Proton | SubatomicParticleType::Neutron => Scalar {
            bits: PROTON_RENDER_RADIUS_BITS,
        },
        SubatomicParticleType::Electron => Scalar { bits: ELECTRON_RENDER_RADIUS_BITS },
    }
}

/// The display colour of a particle of the given type, as red, green, blue.
pub open spec fn color_of(particle_type: SubatomicParticleType) -> (Scalar, Scalar, Scalar) {
    match particle_type {
        SubatomicParticleType::Proton | SubatomicParticleType::Neutron => (
            Scalar { bits: FULL_INTENSITY_BITS },
            Scalar { bits: FULL_INTENSITY_BITS },
            Scalar { bits: FULL_INTENSITY_BITS },
        ),
        SubatomicParticleType::Electron => (
            Scalar { bits: DIM_INTENSITY_BITS },
            Scalar { bits: DIM_INTENSITY_BITS },
            Scalar { bits: FULL_INTENSITY_BITS },
        ),
    }
}

impl ParticleView {
    /// A particle at rest at `location`, with nothing recorded.
    pub open spec fn fresh(
        particle_type: SubatomicParticleType,
        mass: Scalar,
        charge: Scalar,
        location: Vector3,
    ) -> ParticleView {
        ParticleView {
            pos: location,
            v: Vector3::origin(),
            a: Vector3::origin(),
            m: mass,
            r: radius_of(particle_type),
            e: Scalar { bits: 0 },
            q: charge,
            particle_type,
            history: TraceView::empty(),
        }
    }

    /// An electron at rest at `location`.
    pub open spec fn electron_at(location: Vector3) -> ParticleView {
        ParticleView::fresh(
            SubatomicParticleType::Electron,
            Scalar { bits: ELECTRON_MASS_BITS },
            Scalar { bits: ELECTRON_CHARGE_BITS },
            location,
        )
    }

    /// A proton at rest at `location`.
    pub open spec fn proton_at(location: Vector3) -> ParticleView {
        ParticleView::fresh(
            SubatomicParticleType::Proton,
            Scalar { bits: PROTON_MASS_BITS },
            Scalar { bits: PROTON_CHARGE_BITS },
            location,
        )
    }

    /// The mass is greater than zero.
    pub open spec fn wf(self) -> bool {
        self.m.is_positive()
    }

    /// The current value of a tracked property.
    pub open spec fn property(self, x: ParticleProperty) -> Vector3 {
        match x {
            ParticleProperty::Position => self.pos,
            ParticleProperty::Velocity => self.v,
            ParticleProperty::Accelleration => self.a,
        }
    }

    /// The recorded history of a tracked property, oldest first.
    pub open spec fn trace(self, x: ParticleProperty) -> Seq<Vector3> {
        self.history.of(x)
    }

    /// The particle after one more snapshot of every tracked property.
    pub open spec fn logged(self) -> ParticleView {
        ParticleView { history: self.history.recorded(self.pos, self.v, self.a), ..self }
    }

    /// The particle after one forward Euler update under `force` over the
    /// time `delta_t`: the acceleration is the force over the mass, the
    /// velocity grows by acceleration times `delta_t`, and the position by
    /// the new velocity times `delta_t`.
    pub open spec fn advanced(self, force: Vector3, delta_t: Scalar) -> ParticleView {
        let a = force.unscaled(self.m);
        let v = self.v.sum(a.scaled(delta_t));
        let pos = self.pos.sum(v.scaled(delta_t));
        ParticleView { pos, v, a, ..self }
    }
}

impl View for Trace {
    type V = TraceView;

    closed spec fn view(&self) -> TraceView {
        TraceView {
            positions: self.position@,
            velocities: self.velocity@,
            accellerations: self.accelleration@,
        }
    }
}

impl TraceView {
    /// Nothing recorded.
    pub open spec fn empty() -> TraceView {
        TraceView {
            positions: Seq::empty(),
            velocities: Seq::empty(),
            accellerations: Seq::empty(),
        }
    }

    /// The history with one more snapshot of each property.
    pub open spec fn recorded(self, pos: Vector3, v: Vector3, a: Vector3) -> TraceView {
        TraceView {
            positions: self.positions.push(pos),
            velocities: self.velocities.push(v),
            accellerations: self.accellerations.push(a),
        }
    }

    /// The history of one property.
    pub open spec fn of(self, x: ParticleProperty) -> Seq<Vector3> {
        match x {
            ParticleProperty::Position => self.positions,
            ParticleProperty::Velocity => self.velocities,
            ParticleProperty::Accelleration => self.accellerations,
        }
    }
}

/// A copy of `source`, element by element.
fn copy_vectors(source: &Vec<Vector3>) -> (r: Vec<Vector3>)
    ensures
        r@ == source@,
{
    let mut r: Vec<Vector3> = Vec::new();
    let mut i: usize = 0;
    while i < source.len()
        invariant
            i <= source.len(),
            r@ == source@.take(i as int),
        decreases source.len() - i,
    {
        r.push(source[i]);
        i += 1;
    }
    r
}

impl Trace {
    /// A history with nothing recorded.
    pub fn new() -> (r: Trace)
        ensures
            r@ == TraceView::empty(),
    {
        Trace { position: Vec::new(), velocity: Vec::new(), accelleration: Vec::new() }
    }

    /// Appends one snapshot of each property.
    pub fn record(&mut self, pos: Vector3, v: Vector3, a: Vector3)
        ensures
            final(self)@ == old(self)@.recorded(pos, v, a),
    {
        self.accelleration.push(a);
        self.position.push(pos);
        self.velocity.push(v);
    }

    /// The number of snapshots of `x` recorded so far.
    pub fn len(&self, x: &ParticleProperty) -> (n: usize)
        ensures
            n == self@.of(*x).len(),
    {
        match x {
            ParticleProperty::Position => self.position.len(),
            ParticleProperty::Velocity => self.velocity.len(),
            ParticleProperty::Accelleration => self.accelleration.len(),
        }
    }

    /// One axis of the history of `x`, oldest first.
    pub fn project(&self, x: &ParticleProperty, axis: ParticleVector) -> (res: Vec<Scalar>)
        ensures
            res@ == self@.of(*x).map_values(|s: Vector3| axis.component(s)),
    {
        let trace = match x {
            ParticleProperty::Position => &self.position,
            ParticleProperty::Velocity => &self.velocity,
            ParticleProperty::Accelleration => &self.accelleration,
        };
        let mut res: Vec<Scalar> = Vec::new();
        let mut i: usize = 0;
        while i < trace.len()
            invariant
                i <= trace.len(),
                res@ == trace@.take(i as int).map_values(|s: Vector3| axis.component(s)),
            decreases trace.len() - i,
        {
            proof {
                let f = |s: Vector3| axis.component(s);
                assert(trace@.take(i + 1).map_values(f) =~= trace@.take(i as int).map_values(
                    f,
                ).push(f(trace@[i as int])));
            }
            res.push(axis.select(trace[i]));
            i += 1;
        }
        assert(trace@.take(i as int) =~= trace@);
        res
    }
}

impl Clone for Trace {
    fn clone(&self) -> (r: Trace)
        ensures
            r@ == self@,
    {
        Trace {
            position: copy_vectors(&self.position),
            velocity: copy_vectors(&self.velocity),
            accelleration: copy_vectors(&self.accelleration),
        }
    }
}

impl View for Particle {
    type V = ParticleView;

    open spec fn view(&self) -> ParticleView {
        ParticleView {
            pos: self.pos,
            v: self.v,
            a: self.a,
            m: self.m,
            r: self.r,
            e: self.e,
            q: self.q,
            particle_type: self.particle_type,
            history: self.data_trace@,
        }
    }
}

impl Clone for Particle {
    /// A copy of the full state, recorded history included.
    fn clone(&self) -> (r: Particle)
        ensures
            r@ == self@,
    {
        Particle {
            pos: self.pos,
            v: self.v,
            a: self.a,
            m: self.m,
            r: self.r,
            e: self.e,
            q: self.q,
            particle_type: self.particle_type,
            data_trace: self.data_trace.clone(),
        }
    }
}

/// The electron and the proton carry charges of one magnitude, 1.6e-19 C,
/// the electron's negative and the proton's positive, and each has the rest
/// mass of its kind.
pub proof fn lemma_elementary_charges(location: Vector3)
    ensures
        ParticleView::electron_at(location).q.magnitude() == ParticleView::proton_at(location).q,
        ParticleView::proton_at(location).q.bits == PROTON_CHARGE_BITS,
        ParticleView::electron_at(location).q.is_negative(),
        !ParticleView::proton_at(location).q.is_negative(),
        ParticleView::electron_at(location).m.bits == ELECTRON_MASS_BITS,
        ParticleView::proton_at(location).m.bits == PROTON_MASS_BITS,
        ParticleView::electron_at(location).wf(),
        ParticleView::proton_at(location).wf(),
{
}

impl Particle {
    pub fn get_radius(particle_type: SubatomicParticleType) -> (r: Scalar)
        ensures
            r == radius_of(particle_type),
    {
        match particle_type {
            SubatomicParticleType::Proton | SubatomicParticleType::Neutron => Scalar::from_bits(
                PROTON_RENDER_RADIUS_BITS,
            ),
            SubatomicParticleType::Electron => Scalar::from_bits(ELECTRON_RENDER_RADIUS_BITS),
        }
    }

    pub fn get_color(particle_type: SubatomicParticleType) -> (c: (Scalar, Scalar, Scalar))
        ensures
            c == color_of(particle_type),
    {
        match particle_type {
            SubatomicParticleType::Proton | SubatomicParticleType::Neutron => (
                Scalar::from_bits(FULL_INTENSITY_BITS),
                Scalar::from_bits(FULL_INTENSITY_BITS),
                Scalar::from_bits(FULL_INTENSITY_BITS),
            ),
            SubatomicParticleType::Electron => (
                Scalar::from_bits(DIM_INTENSITY_BITS),
                Scalar::from_bits(DIM_INTENSITY_BITS),
                Scalar::from_bits(FULL_INTENSITY_BITS),
            ),
        }
    }

    /// A particle at rest at the origin.
    pub fn new(particle_type: SubatomicParticleType, mass: Scalar, charge: Scalar) -> (p: Particle)
        ensures
            p@ == ParticleView::fresh(particle_type, mass, charge, Vector3::origin()),
            p@.wf() == mass.is_positive(),
    {
        Particle {
            particle_type,
            v: Vector3::zeros(),
            a: Vector3::zeros(),
            m: mass,
            r: Particle::get_radius(particle_type),
            pos: Vector3::zeros(),
            e: Scalar::zero(),
            q: charge,
            data_trace: Trace::new(),
        }
    }

    pub fn create_electron(location: Vector3) -> (p: Particle)
        ensures
            p@ == ParticleView::electron_at(location),
            p@.wf(),
    {
        Particle {
            particle_type: SubatomicParticleType::Electron,
            v: Vector3::zeros(),
            a: Vector3::zeros(),
            m: Scalar::from_bits(ELECTRON_MASS_BITS),
            r: Particle::get_radius(SubatomicParticleType::Electron),
            pos: location,
            e: Scalar::zero(),
            q: Scalar::from_bits(ELECTRON_CHARGE_BITS),
            data_trace: Trace::new(),
        }
    }

    pub fn create_proton(location: Vector3) -> (p: Particle)
        ensures
            p@ == ParticleView::proton_at(location),
            p@.wf(),
    {
        Particle {
            particle_type: SubatomicParticleType::Proton,
            v: Vector3::zeros(),
            a: Vector3::zeros(),
            m: Scalar::from_bits(PROTON_MASS_BITS),
            r: Particle::get_radius(SubatomicParticleType::Proton),
            pos: location,
            e: Scalar::zero(),
            q: Scalar::from_bits(PROTON_CHARGE_BITS),
            data_trace: Trace::new(),
        }
    }

    /// Appends the current acceleration, position and velocity to their
    /// histories.
    pub fn log_debug_data(&mut self)
        ensures
            final(self)@ == old(self)@.logged(),
    {
        self.data_trace.record(self.pos, self.v, self.a);
    }

    pub fn get_property(&self, x: &ParticleProperty) -> (r: Vector3)
        ensures
            r == self@.property(*x),
    {
        match x {
            ParticleProperty::Position => self.pos,
            ParticleProperty::Accelleration => self.a,
            ParticleProperty::Velocity => self.v,
        }
    }

    /// The number of snapshots recorded so far; zero before the first.
    pub fn get_log_size(&self) -> (n: usize)
        ensures
            n == self@.trace(ParticleProperty::Position).len(),
    {
        self.data_trace.len(&ParticleProperty::Position)
    }

    /// One axis of the recorded history of `prop`, oldest first; empty while
    /// nothing has been recorded.
    pub fn get_debug_data(&self, prop: &ParticleProperty, vec: ParticleVector) -> (res: Vec<Scalar>)
        ensures
            res@ == self@.trace(*prop).map_values(|s: Vector3| vec.component(s)),
            res@.len() == self@.trace(*prop).len(),
    {
        self.data_trace.project(prop, vec)
    }

    /// One forward Euler update under `force` over the time `delta_t`.
    pub fn apply_force(&mut self, force: Vector3, delta_t: Scalar)
        requires
            old(self)@.wf(),
        ensures
            final(self)@ == old(self)@.advanced(force, delta_t),
            final(self)@.wf(),
    {
        self.a = force.unscale(self.m);
        self.v = self.v.plus(self.a.scale(delta_t));
        self.pos = self.pos.plus(self.v.scale(delta_t));
    }
}

} // verus!
