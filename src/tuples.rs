//! Tuples of one to thirteen elements: the ordered combination of one label
//! per arity with the elements' fingerprints, so that positions matter.

use vstd::prelude::*;
use crate::combine::{combine_seq, seq_fp};
use crate::freezable::Freezable;

verus! {

impl<A: Freezable> Freezable for (A,) {
    open spec fn fingerprint() -> u64 {
        seq_fp("Tuple<1>"@, seq![A::fingerprint()])
    }

    fn freeze() -> (r: u64) {
        let values = vec![A::freeze()];
        assert(values@ =~= seq![A::fingerprint()]);
        combine_seq("Tuple<1>", values.as_slice())
    }
}

impl<A: Freezable, B: Freezable> Freezable for (A, B) {
    open spec fn fingerprint() -> u64 {
        seq_fp("Tuple<2>"@, seq![A::fingerprint(), B::fingerprint()])
    }

    fn freeze() -> (r: u64) {
        let values = vec![A::freeze(), B::freeze()];
        assert(values@ =~= seq![A::fingerprint(), B::fingerprint()]);
        combine_seq("Tuple<2>", values.as_slice())
    }
}

impl<A: Freezable, B: Freezable, C: Freezable> Freezable for (A, B, C) {
    open spec fn fingerprint() -> u64 {
        seq_fp("Tuple<3>"@, seq![A::fingerprint(), B::fingerprint(), C::fingerprint()])
    }

    fn freeze() -> (r: u64) {
        let values = vec![A::freeze(), B::freeze(), C::freeze()];
        assert(values@ =~= seq![A::fingerprint(), B::fingerprint(), C::fingerprint()]);
        combine_seq("Tuple<3>", values.as_slice())
    }
}

impl<A: Freezable, B: Freezable, C: Freezable, D: Freezable> Freezable for (A, B, C, D) {
    open spec fn fingerprint() -> u64 {
        seq_fp("Tuple<4>"@, seq![A::fingerprint(), B::fingerprint(), C::fingerprint(), D::fingerprint()])
    }

    fn freeze() -> (r: u64) {
        let values = vec![A::freeze(), B::freeze(), C::freeze(), D::freeze()];
        assert(values@ =~= seq![A::fingerprint(), B::fingerprint(), C::fingerprint(), D::fingerprint()]);
        combine_seq("Tuple<4>", values.as_slice())
    }
}

impl<A: Freezable, B: Freezable, C: Freezable, D: Freezable, E: Freezable> Freezable for (A, B, C, D, E) {
    open spec fn fingerprint() -> u64 {
        seq_fp("Tuple<5>"@, seq![A::fingerprint(), B::fingerprint(), C::fingerprint(), D::fingerprint(), E::fingerprint()])
    }

    fn freeze() -> (r: u64) {
        let values = vec![A::freeze(), B::freeze(), C::freeze(), D::freeze(), E::freeze()];
        assert(values@ =~= seq![A::fingerprint(), B::fingerprint(), C::fingerprint(), D::fingerprint(), E::fingerprint()]);
        combine_seq("Tuple<5>", values.as_slice())
    }
}

impl<A: Freezable, B: Freezable, C: Freezable, D: Freezable, E: Freezable, F: Freezable> Freezable for (A, B, C, D, E, F) {
    open spec fn fingerprint() -> u64 {
        seq_fp("Tuple<6>"@, seq![A::fingerprint(), B::fingerprint(), C::fingerprint(), D::fingerprint(), E::fingerprint(), F::fingerprint()])
    }

    fn freeze() -> (r: u64) {
        let values = vec![A::freeze(), B::freeze(), C::freeze(), D::freeze(), E::freeze(), F::freeze()];
        assert(values@ =~= seq![A::fingerprint(), B::fingerprint(), C::fingerprint(), D::fingerprint(), E::fingerprint(), F::fingerprint()]);
        combine_seq("Tuple<6>", values.as_slice())
    }
}

impl<A: Freezable, B: Freezable, C: Freezable, D: Freezable, E: Freezable, F: Freezable, G: Freezable> Freezable for (A, B, C, D, E, F, G) {
    open spec fn fingerprint() -> u64 {
        seq_fp("Tuple<7>"@, seq![A::fingerprint(), B::fingerprint(), C::fingerprint(), D::fingerprint(), E::fingerprint(), F::fingerprint(), G::fingerprint()])
    }

    fn freeze() -> (r: u64) {
        let values = vec![A::freeze(), B::freeze(), C::freeze(), D::freeze(), E::freeze(), F::freeze(), G::freeze()];
        assert(values@ =~= seq![A::fingerprint(), B::fingerprint(), C::fingerprint(), D::fingerprint(), E::fingerprint(), F::fingerprint(), G::fingerprint()]);
        combine_seq("Tuple<7>", values.as_slice())
    }
}

impl<A: Freezable, B: Freezable, C: Freezable, D: Freezable, E: Freezable, F: Freezable, G: Freezable, H: Freezable> Freezable for (A, B, C, D, E, F, G, H) {
    open spec fn fingerprint() -> u64 {
        seq_fp("Tuple<8>"@, seq![A::fingerprint(), B::fingerprint(), C::fingerprint(), D::fingerprint(), E::fingerprint(), F::fingerprint(), G::fingerprint(), H::fingerprint()])
    }

    fn freeze() -> (r: u64) {
        let values = vec![A::freeze(), B::freeze(), C::freeze(), D::freeze(), E::freeze(), F::freeze(), G::freeze(), H::freeze()];
        assert(values@ =~= seq![A::fingerprint(), B::fingerprint(), C::fingerprint(), D::fingerprint(), E::fingerprint(), F::fingerprint(), G::fingerprint(), H::fingerprint()]);
        combine_seq("Tuple<8>", values.as_slice())
    }
}

impl<A: Freezable, B: Freezable, C: Freezable, D: Freezable, E: Freezable, F: Freezable, G: Freezable, H: Freezable, I: Freezable> Freezable for (A, B, C, D, E, F, G, H, I) {
    open spec fn fingerprint() -> u64 {
        seq_fp("Tuple<9>"@, seq![A::fingerprint(), B::fingerprint(), C::fingerprint(), D::fingerprint(), E::fingerprint(), F::fingerprint(), G::fingerprint(), H::fingerprint(), I::fingerprint()])
    }

    fn freeze() -> (r: u64) {
        let values = vec![A::freeze(), B::freeze(), C::freeze(), D::freeze(), E::freeze(), F::freeze(), G::freeze(), H::freeze(), I::freeze()];
        assert(values@ =~= seq![A::fingerprint(), B::fingerprint(), C::fingerprint(), D::fingerprint(), E::fingerprint(), F::fingerprint(), G::fingerprint(), H::fingerprint(), I::fingerprint()]);
        combine_seq("Tuple<9>", values.as_slice())
    }
}

impl<A: Freezable, B: Freezable, C: Freezable, D: Freezable, E: Freezable, F: Freezable, G: Freezable, H: Freezable, I: Freezable, J: Freezable> Freezable for (A, B, C, D, E, F, G, H, I, J) {
    open spec fn fingerprint() -> u64 {
        seq_fp("Tuple<10>"@, seq![A::fingerprint(), B::fingerprint(), C::fingerprint(), D::fingerprint(), E::fingerprint(), F::fingerprint(), G::fingerprint(), H::fingerprint(), I::fingerprint(), J::fingerprint()])
    }

    fn freeze() -> (r: u64) {
        let values = vec![A::freeze(), B::freeze(), C::freeze(), D::freeze(), E::freeze(), F::freeze(), G::freeze(), H::freeze(), I::freeze(), J::freeze()];
        assert(values@ =~= seq![A::fingerprint(), B::fingerprint(), C::fingerprint(), D::fingerprint(), E::fingerprint(), F::fingerprint(), G::fingerprint(), H::fingerprint(), I::fingerprint(), J::fingerprint()]);
        combine_seq("Tuple<10>", values.as_slice())
    }
}

impl<A: Freezable, B: Freezable, C: Freezable, D: Freezable, E: Freezable, F: Freezable, G: Freezable, H: Freezable, I: Freezable, J: Freezable, K: Freezable> Freezable for (A, B, C, D, E, F, G, H, I, J, K) {
    open spec fn fingerprint() -> u64 {
        seq_fp("Tuple<11>"@, seq![A::fingerprint(), B::fingerprint(), C::fingerprint(), D::fingerprint(), E::fingerprint(), F::fingerprint(), G::fingerprint(), H::fingerprint(), I::fingerprint(), J::fingerprint(), K::fingerprint()])
    }

    fn freeze() -> (r: u64) {
        let values = vec![A::freeze(), B::freeze(), C::freeze(), D::freeze(), E::freeze(), F::freeze(), G::freeze(), H::freeze(), I::freeze(), J::freeze(), K::freeze()];
        assert(values@ =~= seq![A::fingerprint(), B::fingerprint(), C::fingerprint(), D::fingerprint(), E::fingerprint(), F::fingerprint(), G::fingerprint(), H::fingerprint(), I::fingerprint(), J::fingerprint(), K::fingerprint()]);
        combine_seq("Tuple<11>", values.as_slice())
    }
}

impl<A: Freezable, B: Freezable, C: Freezable, D: Freezable, E: Freezable, F: Freezable, G: Freezable, H: Freezable, I: Freezable, J: Freezable, K: Freezable, L: Freezable> Freezable for (A, B, C, D, E, F, G, H, I, J, K, L) {
    open spec fn fingerprint() -> u64 {
        seq_fp("Tuple<12>"@, seq![A::fingerprint(), B::fingerprint(), C::fingerprint(), D::fingerprint(), E::fingerprint(), F::fingerprint(), G::fingerprint(), H::fingerprint(), I::fingerprint(), J::fingerprint(), K::fingerprint(), L::fingerprint()])
    }

    fn freeze() -> (r: u64) {
        let values = vec![A::freeze(), B::freeze(), C::freeze(), D::freeze(), E::freeze(), F::freeze(), G::freeze(), H::freeze(), I::freeze(), J::freeze(), K::freeze(), L::freeze()];
        assert(values@ =~= seq![A::fingerprint(), B::fingerprint(), C::fingerprint(), D::fingerprint(), E::fingerprint(), F::fingerprint(), G::fingerprint(), H::fingerprint(), I::fingerprint(), J::fingerprint(), K::fingerprint(), L::fingerprint()]);
        combine_seq("Tuple<12>", values.as_slice())
    }
}

impl<A: Freezable, B: Freezable, C: Freezable, D: Freezable, E: Freezable, F: Freezable, G: Freezable, H: Freezable, I: Freezable, J: Freezable, K: Freezable, L: Freezable, M: Freezable> Freezable for (A, B, C, D, E, F, G, H, I, J, K, L, M) {
    open spec fn fingerprint() -> u64 {
        seq_fp("Tuple<13>"@, seq![A::fingerprint(), B::fingerprint(), C::fingerprint(), D::fingerprint(), E::fingerprint(), F::fingerprint(), G::fingerprint(), H::fingerprint(), I::fingerprint(), J::fingerprint(), K::fingerprint(), L::fingerprint(), M::fingerprint()])
    }

    fn freeze() -> (r: u64) {
        let values = vec![A::freeze(), B::freeze(), C::freeze(), D::freeze(), E::freeze(), F::freeze(), G::freeze(), H::freeze(), I::freeze(), J::freeze(), K::freeze(), L::freeze(), M::freeze()];
        assert(values@ =~= seq![A::fingerprint(), B::fingerprint(), C::fingerprint(), D::fingerprint(), E::fingerprint(), F::fingerprint(), G::fingerprint(), H::fingerprint(), I::fingerprint(), J::fingerprint(), K::fingerprint(), L::fingerprint(), M::fingerprint()]);
        combine_seq("Tuple<13>", values.as_slice())
    }
}

} // verus!
