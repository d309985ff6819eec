use vstd::prelude::*;

verus! {

/// A host-framework plugin that the bootstrap registers.
#[derive(Clone, Copy, Debug, PartialEq, Eq, Structural)]
pub enum Capability {
    /// Running shell commands and child programs.
    Shell,
    /// Native file dialogs.
    Dialog,
    /// Filesystem access.
    Fs,
    /// Control of the application's own process.
    Process,
    /// Operating-system metadata.
    Os,
    /// HTTP transport.
    Http,
    /// At most one running process of the application (desktop only).
    SingleInstance,
    /// Update checking (desktop only).
    Updater,
}

/// The capabilities every build registers, in registration order.
pub open spec fn base_capabilities() -> Seq<Capability> {
    seq![
        Capability::Shell,
        Capability::Dialog,
        Capability::Fs,
        Capability::Process,
        Capability::Os,
        Capability::Http,
    ]
}

/// The capabilities a desktop build registers after the base set, in order.
pub open spec fn desktop_capabilities() -> Seq<Capability> {
    seq![Capability::SingleInstance, Capability::Updater]
}

/// The registered name of a capability.
pub open spec fn capability_name(c: Capability) -> Seq<char> {
    match c {
        Capability::Shell => "shell"@,
        Capability::Dialog => "dialog"@,
        Capability::Fs => "fs"@,
        Capability::Process => "process"@,
        Capability::Os => "os"@,
        Capability::Http => "http"@,
        Capability::SingleInstance => "single-instance"@,
        Capability::Updater => "updater"@,
    }
}

impl Capability {
    /// The name under which the capability is registered with the host.
    pub fn name(&self) -> (r: &'static str)
        ensures
            r@ == capability_name(*self),
    {
        match self {
            Capability::Shell => "shell",
            Capability::Dialog => "dialog",
            Capability::Fs => "fs",
            Capability::Process => "process",
            Capability::Os => "os",
            Capability::Http => "http",
            Capability::SingleInstance => "single-instance",
            Capability::Updater => "updater",
        }
    }

    /// Whether only desktop builds register this capability.
    pub fn is_desktop_only(&self) -> (r: bool)
        ensures
            r == desktop_capabilities().contains(*self),
    {
        proof {
            assert(desktop_capabilities()[0] == Capability::SingleInstance);
            assert(desktop_capabilities()[1] == Capability::Updater);
        }
        match self {
            Capability::SingleInstance => true,
            Capability::Updater => true,
            _ => false,
        }
    }
}

} // verus!
