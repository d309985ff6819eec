use vstd::prelude::*;

use crate::capability::Capability;

verus! {

/// Why a capability could not be registered.
#[derive(Clone, Copy, Debug, PartialEq, Eq, Structural)]
pub enum RegistrationError {
    /// The capability was already registered.
    Duplicate(Capability),
}

/// What registering `c` after the capabilities `s` gives: the longer sequence,
/// or the error that a repeated registration is.
pub open spec fn register_spec(s: Seq<Capability>, c: Capability) -> Result<
    Seq<Capability>,
    RegistrationError,
> {
    if s.contains(c) {
        Err(RegistrationError::Duplicate(c))
    } else {
        Ok(s.push(c))
    }
}

/// Registering each of `cs` in turn after `s`, stopping at the first error:
/// the capabilities registered by then, and the outcome.
pub open spec fn register_each_spec(s: Seq<Capability>, cs: Seq<Capability>) -> (Seq<Capability>, Result<(), RegistrationError>)
    decreases cs.len(),
{
    if cs.len() == 0 {
        (s, Ok(()))
    } else {
        let (s1, r1) = register_each_spec(s, cs.drop_last());
        if r1 is Err {
            (s1, r1)
        } else {
            match register_spec(s1, cs.last()) {
                Ok(s2) => (s2, Ok(())),
                Err(e) => (s1, Err(e)),
            }
        }
    }
}

/// Once a registration has failed, the capabilities after it change nothing.
proof fn lemma_failure_stops(s: Seq<Capability>, cs: Seq<Capability>, k: int)
    requires
        0 <= k <= cs.len(),
        register_each_spec(s, cs.subrange(0, k)).1 is Err,
    ensures
        register_each_spec(s, cs) == register_each_spec(s, cs.subrange(0, k)),
    decreases cs.len(),
{
    if k == cs.len() {
        assert(cs.subrange(0, k) =~= cs);
    } else {
        assert(cs.drop_last().subrange(0, k) =~= cs.subrange(0, k));
        lemma_failure_stops(s, cs.drop_last(), k);
    }
}

/// The capabilities of an application under construction, in registration order.
pub struct BuilderConfig {
    capabilities: Vec<Capability>,
}

impl View for BuilderConfig {
    type V = Seq<Capability>;

    closed spec fn view(&self) -> Seq<Capability> {
        self.capabilities@
    }
}

impl BuilderConfig {
    /// No capability is registered twice.
    pub open spec fn wf(&self) -> bool {
        self@.no_duplicates()
    }

    /// A configuration with nothing registered.
    pub fn new() -> (r: BuilderConfig)
        ensures
            r@ == Seq::<Capability>::empty(),
            r.wf(),
    {
        BuilderConfig { capabilities: Vec::new() }
    }

    /// Whether `c` is registered.
    pub fn contains(&self, c: Capability) -> (r: bool)
        ensures
            r == self@.contains(c),
    {
        let mut i: usize = 0;
        while i < self.capabilities.len()
            invariant
                i <= self.capabilities@.len(),
                forall|j: int| 0 <= j < i ==> self.capabilities@[j] != c,
            decreases self.capabilities@.len() - i,
        {
            if self.capabilities[i] == c {
                return true;
            }
            i = i + 1;
        }
        false
    }

    /// The number of registered capabilities.
    pub fn len(&self) -> (r: usize)
        ensures
            r == self@.len(),
    {
        self.capabilities.len()
    }

    /// The registered capabilities, in registration order.
    pub fn capabilities(&self) -> (r: Vec<Capability>)
        ensures
            r@ == self@,
    {
        let mut r: Vec<Capability> = Vec::new();
        let mut i: usize = 0;
        while i < self.capabilities.len()
            invariant
                i <= self.capabilities@.len(),
                r@ == self.capabilities@.subrange(0, i as int),
            decreases self.capabilities@.len() - i,
        {
            r.push(self.capabilities[i]);
            i = i + 1;
        }
        r
    }

    /// Registers `c` after the capabilities already there. A capability that is
    /// already registered is refused, and the configuration is left as it was.
    pub fn register(&mut self, c: Capability) -> (r: Result<(), RegistrationError>)
        requires
            old(self).wf(),
        ensures
            final(self).wf(),
            match register_spec(old(self)@, c) {
                Ok(s) => r is Ok && final(self)@ == s,
                Err(e) => r == Err::<(), RegistrationError>(e) && final(self)@ == old(self)@,
            },
    {
        if self.contains(c) {
            return Err(RegistrationError::Duplicate(c));
        }
        proof {
            assert forall|i: int, j: int|
                0 <= i < self@.len() + 1 && 0 <= j < self@.len() + 1 && i != j
                implies #[trigger] self@.push(c)[i] != #[trigger] self@.push(c)[j] by {
                if i < self@.len() && j < self@.len() {
                } else if i == self@.len() {
                    assert(self@[j] == self@.push(c)[j]);
                } else {
                    assert(self@[i] == self@.push(c)[i]);
                }
            }
        }
        self.capabilities.push(c);
        Ok(())
    }

    /// Registers each of `cs` in order, stopping at the first capability that is
    /// already registered.
    pub fn register_each(&mut self, cs: &Vec<Capability>) -> (r: Result<(), RegistrationError>)
        requires
            old(self).wf(),
        ensures
            final(self).wf(),
            (final(self)@, r) == register_each_spec(old(self)@, cs@),
    {
        let ghost s0 = self@;
        let mut i: usize = 0;
        while i < cs.len()
            invariant
                i <= cs@.len(),
                s0 == old(self)@,
                self.wf(),
                register_each_spec(s0, cs@.subrange(0, i as int)) == (self@, Ok::<(), RegistrationError>(())),
            decreases cs@.len() - i,
        {
            let res = self.register(cs[i]);
            proof {
                let p = cs@.subrange(0, i as int + 1);
                assert(p.drop_last() =~= cs@.subrange(0, i as int));
                assert(p.last() == cs@[i as int]);
            }
            match res {
                Ok(()) => {},
                Err(e) => {
                    proof {
                        lemma_failure_stops(s0, cs@, i as int + 1);
                    }
                    return Err(e);
                },
            }
            i = i + 1;
        }
        proof {
            assert(cs@.subrange(0, i as int) =~= cs@);
        }
        Ok(())
    }
}


/// Registering a capability a second time is refused with an error naming it,
/// whatever the capability and whatever was registered before, and whether the
/// two registrations come one by one or in one list.
pub proof fn lemma_register_twice_rejected(s: Seq<Capability>, c: Capability)
    ensures
        register_spec(s, c) matches Ok(s1) ==> register_spec(s1, c) == Err::<
            Seq<Capability>,
            RegistrationError,
        >(RegistrationError::Duplicate(c)),
        register_each_spec(s, seq![c, c]).1 == Err::<(), RegistrationError>(
            RegistrationError::Duplicate(c),
        ),
{
    let cs = seq![c, c];
    assert(cs.drop_last() =~= seq![c]);
    assert(seq![c].drop_last() =~= Seq::<Capability>::empty());
    assert(s.push(c)[s.len() as int] == c);
    let one = register_each_spec(s, seq![c]);
    assert(register_each_spec(s, Seq::<Capability>::empty()) == (s, Ok::<(), RegistrationError>(())));
    if s.contains(c) {
        assert(one == (s, Err::<(), RegistrationError>(RegistrationError::Duplicate(c))));
    } else {
        assert(one == (s.push(c), Ok::<(), RegistrationError>(())));
        assert(s.push(c).contains(c));
    }
}

} // verus!
