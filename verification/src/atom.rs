use crate::particle::Particle;
use crate::particle::ParticleView;
use crate::scalar::Scalar;
use crate::vector::Vector3;
use vstd::prelude::*;

verus! {

/// Distance from the nucleus at which the hydrogen electron is placed:
/// 0.05e-9 m, a twentieth of a nanometre.
pub const HYDROGEN_ORBIT_BITS: u64 = 0x3DCB_7CDF_D9D7_BDBB;

/// One nucleus and the electrons bound to it. The nucleus is a single
/// particle that carries the whole nuclear charge.
#[derive(Debug)]
pub struct Atom {
    pub electrons: Vec<Particle>,
    pub nucleus: Particle,
}

/// What an atom is: the views of its particles.
pub struct AtomView {
    pub electrons: Seq<ParticleView>,
    pub nucleus: ParticleView,
}

impl View for Atom {
    type V = AtomView;

    open spec fn view(&self) -> AtomView {
        AtomView {
            electrons: self.electrons@.map_values(|p: Particle| p@),
            nucleus: self.nucleus@,
        }
    }
}

/// The offset of the hydrogen electron from its nucleus, along x.
pub open spec fn hydrogen_offset() -> Vector3 {
    Vector3 {
        x: Scalar { bits: HYDROGEN_ORBIT_BITS },
        y: Scalar { bits: 0 },
        z: Scalar { bits: 0 },
    }
}

impl AtomView {
    /// Every particle of the atom has a mass greater than zero.
    pub open spec fn wf(self) -> bool {
        &&& self.nucleus.wf()
        &&& forall|i: int| 0 <= i < self.electrons.len() ==> (#[trigger] self.electrons[i]).wf()
    }

    /// Hydrogen at `location`: a proton there, and one electron at rest at
    /// the fixed offset from it.
    pub open spec fn hydrogen(location: Vector3) -> AtomView {
        AtomView {
            electrons: seq![ParticleView::electron_at(location.sum(hydrogen_offset()))],
            nucleus: ParticleView::proton_at(location),
        }
    }
}

impl Atom {
    pub fn create_hidrogen(location: Vector3) -> (atom: Atom)
        ensures
            atom@ == AtomView::hydrogen(location),
            atom@.wf(),
    {
        let offset = Vector3::new(
            Scalar::from_bits(HYDROGEN_ORBIT_BITS),
            Scalar::zero(),
            Scalar::zero(),
        );
        let electron = Particle::create_electron(location.plus(offset));
        let atom = Atom { nucleus: Particle::create_proton(location), electrons: vec![electron] };
        assert(atom@.electrons =~= AtomView::hydrogen(location).electrons);
        atom
    }
}

} // verus!
