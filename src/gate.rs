use vstd::prelude::*;

use crate::build_mode::{BuildMode, Platform};
use crate::capability::{base_capabilities, desktop_capabilities, Capability};
use crate::config::{register_each_spec, register_spec, BuilderConfig, RegistrationError};

verus! {

/// The capabilities a build registers, in order: the base set, followed on
/// desktop by single-instance enforcement and the update checker.
pub open spec fn gated_capabilities(mode: BuildMode) -> Seq<Capability> {
    if mode.platform == Platform::Desktop {
        base_capabilities() + desktop_capabilities()
    } else {
        base_capabilities()
    }
}

/// Registering capabilities that are distinct from each other and from those
/// already there appends them, in order, and succeeds.
pub proof fn lemma_register_fresh(s: Seq<Capability>, cs: Seq<Capability>)
    requires
        s.no_duplicates(),
        cs.no_duplicates(),
        forall|c: Capability| s.contains(c) ==> !cs.contains(c),
    ensures
        register_each_spec(s, cs) == (s + cs, Ok::<(), RegistrationError>(())),
    decreases cs.len(),
{
    if cs.len() == 0 {
        assert(s + cs =~= s);
    } else {
        let init = cs.drop_last();
        assert forall|c: Capability| s.contains(c) implies !init.contains(c) by {
            if init.contains(c) {
                let k = choose|k: int| 0 <= k < init.len() && init[k] == c;
                assert(cs[k] == c);
            }
        }
        lemma_register_fresh(s, init);
        let s1 = s + init;
        let last = cs.last();
        if s1.contains(last) {
            let k = choose|k: int| 0 <= k < s1.len() && s1[k] == last;
            if k < s.len() {
                assert(s.contains(last));
                assert(cs.contains(last));
            } else {
                assert(cs[k - s.len()] == last);
            }
        }
        assert(register_spec(s1, last) == Ok::<Seq<Capability>, RegistrationError>(s1.push(last)));
        assert(s1.push(last) =~= s + cs);
    }
}

/// The sequence of capabilities that every build registers.
pub fn base_capability_list() -> (r: Vec<Capability>)
    ensures
        r@ == base_capabilities(),
{
    let r = vec![
        Capability::Shell,
        Capability::Dialog,
        Capability::Fs,
        Capability::Process,
        Capability::Os,
        Capability::Http,
    ];
    assert(r@ =~= base_capabilities());
    r
}

/// The sequence of capabilities that desktop builds add.
pub fn desktop_capability_list() -> (r: Vec<Capability>)
    ensures
        r@ == desktop_capabilities(),
{
    let r = vec![Capability::SingleInstance, Capability::Updater];
    assert(r@ =~= desktop_capabilities());
    r
}

proof fn lemma_lists_distinct()
    ensures
        base_capabilities().no_duplicates(),
        desktop_capabilities().no_duplicates(),
        forall|c: Capability| base_capabilities().contains(c) ==> !desktop_capabilities().contains(c),
{
    let b = base_capabilities();
    let d = desktop_capabilities();
    assert(b[0] == Capability::Shell && b[1] == Capability::Dialog && b[2] == Capability::Fs);
    assert(b[3] == Capability::Process && b[4] == Capability::Os && b[5] == Capability::Http);
    assert(d[0] == Capability::SingleInstance && d[1] == Capability::Updater);
}

/// A configuration holding exactly the base capabilities, in order.
pub fn compose_base() -> (r: BuilderConfig)
    ensures
        r.wf(),
        r@ == base_capabilities(),
{
    let mut config = BuilderConfig::new();
    let base = base_capability_list();
    proof {
        lemma_lists_distinct();
        lemma_register_fresh(Seq::empty(), base_capabilities());
        assert(Seq::<Capability>::empty() + base_capabilities() =~= base_capabilities());
    }
    let _ = config.register_each(&base);
    config
}

/// Adds what the platform calls for: on desktop, single-instance enforcement and
/// then the update checker; on mobile, nothing. The decision rests on `mode`
/// alone.
pub fn apply_platform_gate(config: &mut BuilderConfig, mode: BuildMode) -> (r: Result<
    (),
    RegistrationError,
>)
    requires
        old(config).wf(),
    ensures
        final(config).wf(),
        mode.platform == Platform::Mobile ==> r is Ok && final(config)@ == old(config)@,
        mode.platform == Platform::Desktop ==> (final(config)@, r) == register_each_spec(
            old(config)@,
            desktop_capabilities(),
        ),
{
    if mode.is_desktop() {
        let extra = desktop_capability_list();
        config.register_each(&extra)
    } else {
        Ok(())
    }
}

/// The full configuration of a build: the base set, then what the platform adds.
pub fn build_config(mode: BuildMode) -> (r: BuilderConfig)
    ensures
        r.wf(),
        r@ == gated_capabilities(mode),
{
    let mut config = compose_base();
    proof {
        lemma_lists_distinct();
        lemma_register_fresh(base_capabilities(), desktop_capabilities());
    }
    let _ = apply_platform_gate(&mut config, mode);
    config
}

/// Every build registers each capability at most once. A mobile build registers
/// exactly the base set, without single-instance enforcement or the update
/// checker; a desktop build registers the base set followed by exactly those two.
pub proof fn lemma_platform_gate(mode: BuildMode)
    ensures
        gated_capabilities(mode).no_duplicates(),
        mode.platform == Platform::Mobile ==> {
            &&& gated_capabilities(mode) == base_capabilities()
            &&& !gated_capabilities(mode).contains(Capability::SingleInstance)
            &&& !gated_capabilities(mode).contains(Capability::Updater)
        },
        mode.platform == Platform::Desktop ==> {
            &&& gated_capabilities(mode).subrange(0, 6) == base_capabilities()
            &&& gated_capabilities(mode).subrange(6, 8) == desktop_capabilities()
            &&& gated_capabilities(mode).len() == 8
        },
{
    lemma_lists_distinct();
    lemma_register_fresh(base_capabilities(), desktop_capabilities());
    let b = base_capabilities();
    let d = desktop_capabilities();
    if mode.platform == Platform::Desktop {
        assert((b + d).subrange(0, 6) =~= b);
        assert((b + d).subrange(6, 8) =~= d);
    } else {
        assert(b[0] != Capability::SingleInstance && b[1] != Capability::SingleInstance);
        assert(d.contains(Capability::SingleInstance)) by {
            assert(d[0] == Capability::SingleInstance);
        }
        assert(d.contains(Capability::Updater)) by {
            assert(d[1] == Capability::Updater);
        }
    }
}

} // verus!
