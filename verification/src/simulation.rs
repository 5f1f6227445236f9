use crate::atom::Atom;
use crate::atom::AtomView;
use crate::particle::Particle;
use crate::particle::ParticleProperty;
use crate::particle::ParticleView;
use crate::scalar::Scalar;
use crate::vector::Vector3;
use vstd::prelude::*;

verus! {

// The force model is deliberately simple. Along each axis the force of a
// pair is the charge term divided by the displacement along that axis, and
// zero where the two particles stand level: no inverse square law, no
// collisions, no conservation checks. Forces are equal and opposite within
// a pair, every particle is moved by the sum of its forces, and all forces
// of a step are taken at the positions from before the step.

/// The Coulomb constant, 8.9875517923e9 N m^2 / C^2.
pub const COULOMB_CONSTANT_BITS: u64 = 0x4200_BD99_4182_6666;

/// The histories that can be kept of a particle.
pub enum ParticleHistoryEnum {
    Position,
    Velocity,
    Accelleration,
}

/// A set of charged particles and the time step by which they advance.
pub struct Simulation {
    delta_t: Scalar,
    pub particles: Vec<Particle>,
    temperature: Scalar,
}

/// What a simulation is: its settings and its particles in insertion order.
pub struct SimulationView {
    pub delta_t: Scalar,
    pub temperature: Scalar,
    pub particles: Seq<ParticleView>,
}

impl View for Simulation {
    type V = SimulationView;

    closed spec fn view(&self) -> SimulationView {
        SimulationView {
            delta_t: self.delta_t,
            temperature: self.temperature,
            particles: self.particles@.map_values(|p: Particle| p@),
        }
    }
}

/// Every particle has a mass greater than zero.
pub open spec fn all_wf(ps: Seq<ParticleView>) -> bool {
    forall|i: int| 0 <= i < ps.len() ==> (#[trigger] ps[i]).wf()
}

impl SimulationView {
    /// Every particle has a mass greater than zero.
    pub open spec fn wf(self) -> bool {
        all_wf(self.particles)
    }
}

/// The Coulomb constant.
pub open spec fn coulomb_constant() -> Scalar {
    Scalar { bits: COULOMB_CONSTANT_BITS }
}

/// The charge term of a pair: the Coulomb constant times the product of the
/// two charges.
pub open spec fn charge_term(q_i: Scalar, q_j: Scalar) -> Scalar {
    coulomb_constant().product(q_i.product(q_j))
}

/// The force along one axis: the charge term over the displacement along
/// that axis, and exactly zero where that displacement is zero.
pub open spec fn axis_force(f_charge: Scalar, d: Scalar) -> Scalar {
    if d.is_zero() {
        Scalar { bits: 0 }
    } else {
        f_charge.quotient(d)
    }
}

/// The force that `p_j` exerts on `p_i`, axis by axis, where the
/// displacement is the position of `p_i` less that of `p_j`.
pub open spec fn pair_force(p_i: ParticleView, p_j: ParticleView) -> Vector3 {
    let d = p_i.pos.difference(p_j.pos);
    let f_charge = charge_term(p_i.q, p_j.q);
    Vector3 {
        x: axis_force(f_charge, d.x),
        y: axis_force(f_charge, d.y),
        z: axis_force(f_charge, d.z),
    }
}

/// Along an axis where the displacement `d` is not zero, a force `f` that
/// is a number points the way of `d` when the charge product `qq` is
/// positive, and against it when `qq` is negative.
pub open spec fn sign_consistent(qq: Scalar, d: Scalar, f: Scalar) -> bool {
    !d.is_zero() && !f.is_nan() ==> f.is_negative() == (qq.is_negative() != d.is_negative())
}

/// The force on particle `k` from its partners with index below `n`, summed
/// in the order of their indices. A partner before `k` is the first of its
/// pair, so `k` takes the opposite of the pair's force; a partner after `k`
/// is the second, and `k` takes the force itself.
pub open spec fn net_force_upto(ps: Seq<ParticleView>, k: int, n: int) -> Vector3
    decreases n,
{
    if n <= 0 {
        Vector3::origin()
    } else {
        let so_far = net_force_upto(ps, k, n - 1);
        let j = n - 1;
        if j == k {
            so_far
        } else if j < k {
            so_far.difference(pair_force(ps[j], ps[k]))
        } else {
            so_far.sum(pair_force(ps[k], ps[j]))
        }
    }
}

/// The force on particle `k` from all the others.
pub open spec fn net_force(ps: Seq<ParticleView>, k: int) -> Vector3 {
    net_force_upto(ps, k, ps.len() as int)
}

/// The particles after one step: each advanced under the force that the
/// others exert on it at their positions before the step.
pub open spec fn step_spec(ps: Seq<ParticleView>, delta_t: Scalar) -> Seq<ParticleView> {
    Seq::new(ps.len(), |k: int| ps[k].advanced(net_force(ps, k), delta_t))
}

/// The particles after `n` steps.
pub open spec fn run_spec(ps: Seq<ParticleView>, delta_t: Scalar, n: nat) -> Seq<ParticleView>
    decreases n,
{
    if n == 0 {
        ps
    } else {
        step_spec(run_spec(ps, delta_t, (n - 1) as nat), delta_t)
    }
}

/// The particles followed by those of `atom`: its electrons, then its
/// nucleus.
pub open spec fn with_atom(ps: Seq<ParticleView>, atom: AtomView) -> Seq<ParticleView> {
    (ps + atom.electrons).push(atom.nucleus)
}

/// The force along one axis from the charge term and the displacement.
pub fn axis_force_of(f_charge: Scalar, d: Scalar) -> (f: Scalar)
    ensures
        f == axis_force(f_charge, d),
        d.is_zero() ==> f.bits == 0,
        !d.is_zero() && !f.is_nan() ==> !f_charge.is_nan(),
        sign_consistent(f_charge, d, f),
{
    if d.is_zero() {
        Scalar::zero()
    } else {
        f_charge.over(d)
    }
}

/// The force that `p_j` exerts on `p_i`. Along an axis on which the two
/// stand level it is exactly zero; along any other it pushes `p_i` away
/// from `p_j` when their charges are alike and pulls it closer when they
/// differ.
pub fn coulomb_force(p_i: &Particle, p_j: &Particle) -> (f: Vector3)
    ensures
        f == pair_force(p_i@, p_j@),
        p_i@.pos.difference(p_j@.pos).x.is_zero() ==> f.x.bits == 0,
        p_i@.pos.difference(p_j@.pos).y.is_zero() ==> f.y.bits == 0,
        p_i@.pos.difference(p_j@.pos).z.is_zero() ==> f.z.bits == 0,
        sign_consistent(p_i@.q.product(p_j@.q), p_i@.pos.difference(p_j@.pos).x, f.x),
        sign_consistent(p_i@.q.product(p_j@.q), p_i@.pos.difference(p_j@.pos).y, f.y),
        sign_consistent(p_i@.q.product(p_j@.q), p_i@.pos.difference(p_j@.pos).z, f.z),
{
    let d = p_i.pos.minus(p_j.pos);
    let f_charge = Scalar::from_bits(COULOMB_CONSTANT_BITS).times(p_i.q.times(p_j.q));
    Vector3::new(
        axis_force_of(f_charge, d.x),
        axis_force_of(f_charge, d.y),
        axis_force_of(f_charge, d.z),
    )
}

/// Two particles agree in what a step reads: position, velocity, mass and
/// charge.
pub open spec fn same_state(p: ParticleView, q: ParticleView) -> bool {
    &&& p.pos == q.pos
    &&& p.v == q.v
    &&& p.m == q.m
    &&& p.q == q.q
}

/// Two particle lists agree, particle by particle, in what a step reads.
pub open spec fn same_states(a: Seq<ParticleView>, b: Seq<ParticleView>) -> bool {
    &&& a.len() == b.len()
    &&& forall|i: int| 0 <= i < a.len() ==> same_state(#[trigger] a[i], b[i])
}

/// Every particle with one more snapshot recorded.
pub open spec fn logged_all(ps: Seq<ParticleView>) -> Seq<ParticleView> {
    Seq::new(ps.len(), |i: int| ps[i].logged())
}

/// The particles after a snapshot, then `n` steps with a snapshot after
/// each.
pub open spec fn logged_run(ps: Seq<ParticleView>, delta_t: Scalar, n: nat) -> Seq<ParticleView>
    decreases n,
{
    if n == 0 {
        logged_all(ps)
    } else {
        logged_all(step_spec(logged_run(ps, delta_t, (n - 1) as nat), delta_t))
    }
}

/// The force on a particle depends only on the positions and charges of
/// the particles.
pub proof fn lemma_net_force_reads_state(
    a: Seq<ParticleView>,
    b: Seq<ParticleView>,
    k: int,
    n: int,
)
    requires
        same_states(a, b),
        0 <= k < a.len(),
        n <= a.len(),
    ensures
        net_force_upto(a, k, n) == net_force_upto(b, k, n),
    decreases n,
{
    if n > 0 {
        lemma_net_force_reads_state(a, b, k, n - 1);
        assert(same_state(a[n - 1], b[n - 1]));
        assert(same_state(a[k], b[k]));
    }
}

/// A step is a function of the particles' state and the time step: from
/// the same positions, velocities, masses and charges, with the same time
/// step, it gives the same accelerations, velocities and positions.
pub proof fn lemma_step_deterministic(
    a: Seq<ParticleView>,
    b: Seq<ParticleView>,
    delta_t: Scalar,
)
    requires
        same_states(a, b),
    ensures
        same_states(step_spec(a, delta_t), step_spec(b, delta_t)),
        forall|i: int|
            0 <= i < a.len() ==> (#[trigger] step_spec(a, delta_t)[i]).a == step_spec(
                b,
                delta_t,
            )[i].a,
        a == b ==> step_spec(a, delta_t) == step_spec(b, delta_t),
{
    assert forall|i: int| 0 <= i < a.len() implies same_state(
        #[trigger] step_spec(a, delta_t)[i],
        step_spec(b, delta_t)[i],
    ) && step_spec(a, delta_t)[i].a == step_spec(b, delta_t)[i].a by {
        lemma_net_force_reads_state(a, b, i, a.len() as int);
        assert(same_state(a[i], b[i]));
    }
}

/// A step changes position, velocity and acceleration only: mass, charge,
/// radius, energy, type and recorded history stay.
pub proof fn lemma_step_keeps_identity(ps: Seq<ParticleView>, delta_t: Scalar, i: int)
    requires
        0 <= i < ps.len(),
    ensures
        step_spec(ps, delta_t).len() == ps.len(),
        step_spec(ps, delta_t)[i].m == ps[i].m,
        step_spec(ps, delta_t)[i].q == ps[i].q,
        step_spec(ps, delta_t)[i].r == ps[i].r,
        step_spec(ps, delta_t)[i].e == ps[i].e,
        step_spec(ps, delta_t)[i].particle_type == ps[i].particle_type,
        forall|x: ParticleProperty| step_spec(ps, delta_t)[i].trace(x) == ps[i].trace(x),
{
}

/// Along an axis on which two particles stand level, the force between
/// them is exactly positive zero, whatever their charges.
pub proof fn lemma_level_axis_no_force(p_i: ParticleView, p_j: ParticleView)
    ensures
        p_i.pos.difference(p_j.pos).x.is_zero() ==> pair_force(p_i, p_j).x.bits == 0,
        p_i.pos.difference(p_j.pos).y.is_zero() ==> pair_force(p_i, p_j).y.bits == 0,
        p_i.pos.difference(p_j.pos).z.is_zero() ==> pair_force(p_i, p_j).z.bits == 0,
{
}

/// Adding a hydrogen atom adds exactly two particles, the electron and
/// then the proton, however many particles were there before.
pub proof fn lemma_hydrogen_adds_two(ps: Seq<ParticleView>, location: Vector3)
    ensures
        with_atom(ps, AtomView::hydrogen(location)).len() == ps.len() + 2,
        with_atom(ps, AtomView::hydrogen(location))[ps.len() as int]
            == ParticleView::electron_at(location.sum(crate::atom::hydrogen_offset())),
        with_atom(ps, AtomView::hydrogen(location))[ps.len() as int + 1] == ParticleView::proton_at(
            location,
        ),
{
}

/// Recording once before the first step and once after each of `n` steps
/// leaves every particle with `n + 1` more snapshots of each property than
/// it had; a particle that had none has exactly `n + 1`.
pub proof fn lemma_logged_run_length(
    ps: Seq<ParticleView>,
    delta_t: Scalar,
    n: nat,
    i: int,
    x: ParticleProperty,
)
    requires
        0 <= i < ps.len(),
    ensures
        logged_run(ps, delta_t, n).len() == ps.len(),
        logged_run(ps, delta_t, n)[i].trace(x).len() == ps[i].trace(x).len() + n + 1,
        ps[i].trace(x).len() == 0 ==> logged_run(ps, delta_t, n)[i].trace(x).len() == n + 1,
    decreases n,
{
    if n > 0 {
        let before = logged_run(ps, delta_t, (n - 1) as nat);
        lemma_logged_run_length(ps, delta_t, (n - 1) as nat, i, x);
        lemma_step_keeps_identity(before, delta_t, i);
    }
}

impl Simulation {
    /// An empty simulation that advances by `delta_t` at each step. The
    /// temperature is kept and feeds into nothing.
    pub fn new(delta_t: Scalar, temperature: Scalar) -> (s: Simulation)
        ensures
            s@.delta_t == delta_t,
            s@.temperature == temperature,
            s@.particles == Seq::<ParticleView>::empty(),
            s@.wf(),
    {
        let s = Simulation { delta_t, particles: Vec::new(), temperature };
        assert(s@.particles =~= Seq::<ParticleView>::empty());
        s
    }

    pub fn delta_t(&self) -> (r: Scalar)
        ensures
            r == self@.delta_t,
    {
        self.delta_t
    }

    pub fn temperature(&self) -> (r: Scalar)
        ensures
            r == self@.temperature,
    {
        self.temperature
    }

    /// True when every particle has a mass greater than zero.
    pub fn is_wf(&self) -> (ok: bool)
        ensures
            ok == self@.wf(),
    {
        let mut i: usize = 0;
        while i < self.particles.len()
            invariant
                i <= self.particles.len(),
                forall|k: int| 0 <= k < i ==> (#[trigger] self@.particles[k]).wf(),
            decreases self.particles.len() - i,
        {
            if !self.particles[i].m.is_positive() {
                assert(!self@.particles[i as int].wf());
                return false;
            }
            i += 1;
        }
        true
    }

    /// The force on each particle from all the others, at their current
    /// positions. Every pair is visited once.
    pub fn net_forces(&self) -> (forces: Vec<Vector3>)
        ensures
            forces@.len() == self@.particles.len(),
            forall|k: int|
                0 <= k < forces@.len() ==> #[trigger] forces@[k] == net_force(self@.particles, k),
    {
        let n = self.particles.len();
        let ghost ps = self@.particles;
        let mut forces: Vec<Vector3> = Vec::new();
        let mut c: usize = 0;
        while c < n
            invariant
                c <= n,
                forces@.len() == c,
                forall|k: int| 0 <= k < c ==> #[trigger] forces@[k] == Vector3::origin(),
            decreases n - c,
        {
            forces.push(Vector3::zeros());
            c += 1;
        }
        let mut i: usize = 0;
        while i < n
            invariant
                i <= n,
                n == self.particles.len(),
                ps == self@.particles,
                forces@.len() == n,
                forall|k: int| 0 <= k < i ==> #[trigger] forces@[k] == net_force_upto(ps, k, n as int),
                forall|k: int| i <= k < n ==> #[trigger] forces@[k] == net_force_upto(ps, k, i as int),
            decreases n - i,
        {
            let mut j: usize = i + 1;
            assert(net_force_upto(ps, i as int, i + 1) == net_force_upto(ps, i as int, i as int));
            while j < n
                invariant
                    i < j <= n,
                    n == self.particles.len(),
                    ps == self@.particles,
                    forces@.len() == n,
                    forall|k: int|
                        0 <= k < i ==> #[trigger] forces@[k] == net_force_upto(ps, k, n as int),
                    forces@[i as int] == net_force_upto(ps, i as int, j as int),
                    forall|k: int|
                        i < k < j ==> #[trigger] forces@[k] == net_force_upto(ps, k, i + 1),
                    forall|k: int|
                        j <= k < n ==> #[trigger] forces@[k] == net_force_upto(ps, k, i as int),
                decreases n - j,
            {
                let f = coulomb_force(&self.particles[i], &self.particles[j]);
                let f_i = forces[i].plus(f);
                let f_j = forces[j].minus(f);
                forces.set(i, f_i);
                forces.set(j, f_j);
                proof {
                    assert(ps[i as int] == self.particles[i as int]@);
                    assert(ps[j as int] == self.particles[j as int]@);
                    assert(f_i == net_force_upto(ps, i as int, j + 1));
                    assert(f_j == net_force_upto(ps, j as int, i + 1));
                }
                j += 1;
            }
            i += 1;
        }
        forces
    }

    /// Advances every particle by one time step of forward Euler
    /// integration. The forces are taken at the positions before the step;
    /// mass, charge, radius, type and recorded history stay as they are.
    /// A mass that is not greater than zero is the caller's error:
    /// `is_wf` tells.
    pub fn step(&mut self)
        requires
            old(self)@.wf(),
        ensures
            final(self)@.particles == step_spec(old(self)@.particles, old(self)@.delta_t),
            final(self)@.delta_t == old(self)@.delta_t,
            final(self)@.temperature == old(self)@.temperature,
            final(self)@.wf(),
    {
        let forces = self.net_forces();
        let n = self.particles.len();
        let dt = self.delta_t;
        let ghost before = self@.particles;
        let mut k: usize = 0;
        while k < n
            invariant
                k <= n,
                n == self.particles.len(),
                n == before.len(),
                forces@.len() == n,
                self.delta_t == dt,
                self.temperature == old(self).temperature,
                all_wf(before),
                forall|i: int| 0 <= i < n ==> #[trigger] forces@[i] == net_force(before, i),
                forall|i: int|
                    0 <= i < k ==> (#[trigger] self.particles[i])@ == before[i].advanced(
                        forces@[i],
                        dt,
                    ),
                forall|i: int| k <= i < n ==> (#[trigger] self.particles[i])@ == before[i],
            decreases n - k,
        {
            assert(before[k as int].wf());
            self.particles[k].apply_force(forces[k], dt);
            k += 1;
        }
        assert(self@.particles =~= step_spec(before, dt));
    }

    /// Calls `step` `n_steps` times.
    pub fn run(&mut self, n_steps: usize)
        requires
            old(self)@.wf(),
        ensures
            final(self)@.particles == run_spec(
                old(self)@.particles,
                old(self)@.delta_t,
                n_steps as nat,
            ),
            final(self)@.delta_t == old(self)@.delta_t,
            final(self)@.temperature == old(self)@.temperature,
            final(self)@.wf(),
    {
        let mut done: usize = 0;
        while done < n_steps
            invariant
                done <= n_steps,
                self@.wf(),
                self@.delta_t == old(self)@.delta_t,
                self@.temperature == old(self)@.temperature,
                self@.particles == run_spec(old(self)@.particles, old(self)@.delta_t, done as nat),
            decreases n_steps - done,
        {
            self.step();
            done += 1;
        }
    }

    /// Appends copies of the atom's particles: its electrons in their
    /// order, then its nucleus.
    pub fn add_atom(&mut self, atom: &Atom)
        ensures
            final(self)@.particles == with_atom(old(self)@.particles, atom@),
            final(self)@.particles.len() == old(self)@.particles.len() + atom@.electrons.len() + 1,
            final(self)@.delta_t == old(self)@.delta_t,
            final(self)@.temperature == old(self)@.temperature,
            old(self)@.wf() && atom@.wf() ==> final(self)@.wf(),
    {
        let ghost before = self@.particles;
        let mut i: usize = 0;
        while i < atom.electrons.len()
            invariant
                i <= atom.electrons.len(),
                self.delta_t == old(self).delta_t,
                self.temperature == old(self).temperature,
                self@.particles == before + atom@.electrons.take(i as int),
            decreases atom.electrons.len() - i,
        {
            let particle = atom.electrons[i].clone();
            let ghost grown = self@.particles.push(particle@);
            self.particles.push(particle);
            assert(self@.particles =~= grown);
            assert(atom@.electrons.take(i + 1) =~= atom@.electrons.take(i as int).push(
                atom@.electrons[i as int],
            ));
            assert(grown =~= before + atom@.electrons.take(i + 1));
            i += 1;
        }
        assert(atom@.electrons.take(i as int) =~= atom@.electrons);
        self.particles.push(atom.nucleus.clone());
        assert(self@.particles =~= with_atom(before, atom@));
    }
}

} // verus!
