//! The benchmark of contract preparation: one contract code is prepared over
//! and over, and every time has to go well.

use vstd::prelude::*;

verus! {

/// How often the code is prepared.
pub const ROUNDS: u32 = 1000;

/// A run of the benchmark.
#[derive(Debug)]
pub struct TestCode {
    /// The code that is prepared.
    pub code: Vec<u8>,
    /// How often it was prepared so far.
    pub prepared: u32,
    /// Whether a preparation failed.
    pub failed: bool,
}

impl TestCode {
    /// Whether this is a run that the benchmark can be in.
    pub open spec fn wf(self) -> bool {
        &&& self.prepared <= ROUNDS
        &&& self.failed ==> self.prepared < ROUNDS
    }

    /// Whether the benchmark is over and went well.
    pub open spec fn spec_passed(self) -> bool {
        self.prepared == ROUNDS
    }

    /// Whether the benchmark is over.
    pub open spec fn is_over(self) -> bool {
        self.failed || self.prepared == ROUNDS
    }

    /// The run after one more preparation, which went well or not.
    pub open spec fn after(self, ok: bool) -> TestCode {
        if self.is_over() {
            self
        } else if ok {
            TestCode { prepared: (self.prepared + 1) as u32, ..self }
        } else {
            TestCode { failed: true, ..self }
        }
    }

    /// The run after more preparations, one after the other.
    pub open spec fn after_all(self, outcomes: Seq<bool>) -> TestCode
        decreases outcomes.len(),
    {
        if outcomes.len() == 0 {
            self
        } else {
            self.after_all(outcomes.drop_last()).after(outcomes.last())
        }
    }

    /// A run that is about to begin.
    pub fn new(code: Vec<u8>) -> (run: Self)
        ensures
            run == (TestCode { code, prepared: 0, failed: false }),
            run.wf(),
    {
        TestCode { code, prepared: 0, failed: false }
    }

    /// The code to prepare next, if the benchmark is not over.
    pub fn next(&self) -> (code: Option<&Vec<u8>>)
        ensures
            code == if self.is_over() {
                None
            } else {
                Some(&self.code)
            },
    {
        if self.failed || self.prepared == ROUNDS {
            None
        } else {
            Some(&self.code)
        }
    }

    /// Takes note of whether a preparation went well.
    pub fn report(&mut self, ok: bool)
        requires
            old(self).wf(),
        ensures
            *final(self) == old(self).after(ok),
            final(self).wf(),
    {
        if self.failed || self.prepared == ROUNDS {
        } else if ok {
            self.prepared = self.prepared + 1;
        } else {
            self.failed = true;
        }
    }

    /// Whether the benchmark is over and went well.
    pub fn passed(&self) -> (passed: bool)
        ensures
            passed == self.spec_passed(),
    {
        self.prepared == ROUNDS
    }
}

/// The benchmark passes exactly if all of its rounds, and no fewer, went well;
/// it fails as soon as one does not.
pub proof fn law_passes_if_every_round_does(run: TestCode, outcomes: Seq<bool>)
    requires
        run.prepared == 0,
        !run.failed,
    ensures
        run.after_all(outcomes).wf(),
        run.after_all(outcomes).code == run.code,
        run.after_all(outcomes).spec_passed() <==> {
            &&& outcomes.len() >= ROUNDS
            &&& forall|i: int| 0 <= i < ROUNDS ==> #[trigger] outcomes[i]
        },
        run.after_all(outcomes).failed <==> exists|i: int|
            0 <= i < ROUNDS && i < outcomes.len() && !#[trigger] outcomes[i],
        !run.after_all(outcomes).is_over() ==> run.after_all(outcomes).prepared
            == outcomes.len(),
    decreases outcomes.len(),
{
    if outcomes.len() > 0 {
        let before = outcomes.drop_last();
        let last = outcomes.len() - 1;
        law_passes_if_every_round_does(run, before);
        assert forall|i: int| 0 <= i < before.len() implies before[i] == outcomes[i] by {}
        let reached = run.after_all(before);
        if reached.failed {
            let i = choose|i: int|
                0 <= i < ROUNDS && i < before.len() && !#[trigger] before[i];
            assert(!outcomes[i]);
        } else if reached.spec_passed() {
            assert forall|i: int| 0 <= i < ROUNDS implies #[trigger] outcomes[i] by {
                assert(before[i]);
            }
        } else {
            assert(before.len() < ROUNDS);
            assert forall|i: int| 0 <= i < before.len() implies #[trigger] outcomes[i] by {
                assert(before[i]);
            }
            assert(outcomes[last] == outcomes.last());
        }
    }
}

/// The code is prepared again exactly as long as every preparation went well and
/// there were fewer than a thousand of them; it is always the same code. The
/// benchmark passes exactly if a thousand preparations went well before any did
/// not.
pub proof fn law_code_is_prepared_a_thousand_times(
    code: Vec<u8>,
    begun: TestCode,
    outcomes: Seq<bool>,
    next: Option<&Vec<u8>>,
    passed: bool,
)
    requires
        call_ensures(TestCode::new, (code,), begun),
        call_ensures(TestCode::next, (&begun.after_all(outcomes),), next),
        call_ensures(TestCode::passed, (&begun.after_all(outcomes),), passed),
    ensures
        next is Some <==> {
            &&& outcomes.len() < 1000
            &&& forall|i: int| 0 <= i < outcomes.len() ==> #[trigger] outcomes[i]
        },
        next matches Some(again) ==> *again == code,
        passed <==> {
            &&& outcomes.len() >= 1000
            &&& forall|i: int| 0 <= i < 1000 ==> #[trigger] outcomes[i]
        },
{
    law_passes_if_every_round_does(begun, outcomes);
    let reached = begun.after_all(outcomes);
    if next is Some {
        assert(!reached.is_over());
        assert(outcomes.len() < 1000);
    } else if outcomes.len() < 1000 {
        if reached.failed {
            let i = choose|i: int|
                0 <= i < ROUNDS && i < outcomes.len() && !#[trigger] outcomes[i];
            assert(!outcomes[i]);
        }
    }
}

/// One more outcome counts as long as the benchmark is not over, and then not
/// any more: one that is good is counted, one that is not ends it.
pub proof fn law_outcomes_count_until_the_end(run: TestCode, ok: bool)
    ensures
        run.after(ok).code == run.code,
        run.failed || run.prepared == 1000 ==> run.after(ok) == run,
        !run.failed && run.prepared < 1000 && ok ==> {
            &&& run.after(ok).prepared == run.prepared + 1
            &&& !run.after(ok).failed
        },
        !run.failed && run.prepared < 1000 && !ok ==> {
            &&& run.after(ok).prepared == run.prepared
            &&& run.after(ok).failed
        },
{
}

} // verus!
