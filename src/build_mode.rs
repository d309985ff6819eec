use vstd::prelude::*;

verus! {

/// The platform a build targets.
#[derive(Clone, Copy, Debug, PartialEq, Eq, Structural)]
pub enum Platform {
    Desktop,
    Mobile,
}

/// The optimisation profile a build was made with.
#[derive(Clone, Copy, Debug, PartialEq, Eq, Structural)]
pub enum Profile {
    Debug,
    Release,
}

/// The fixed, build-time mode of the process. It never changes while the
/// process runs, and it is passed explicitly to every decision that depends on it.
#[derive(Clone, Copy, Debug, PartialEq, Eq, Structural)]
pub struct BuildMode {
    pub platform: Platform,
    pub profile: Profile,
}

impl BuildMode {
    pub fn new(platform: Platform, profile: Profile) -> (r: BuildMode)
        ensures
            r.platform == platform,
            r.profile == profile,
    {
        BuildMode { platform, profile }
    }

    pub fn is_desktop(&self) -> (r: bool)
        ensures
            r == (self.platform == Platform::Desktop),
    {
        match self.platform {
            Platform::Desktop => true,
            Platform::Mobile => false,
        }
    }

    pub fn is_debug(&self) -> (r: bool)
        ensures
            r == (self.profile == Profile::Debug),
    {
        match self.profile {
            Profile::Debug => true,
            Profile::Release => false,
        }
    }
}

} // verus!
