//! WASI permission classes: a component starts with no ambient capability,
//! and a manifest request never equals a granted permission.
use vstd::prelude::*;

verus! {

/// The permission classes a package manifest can request.
#[derive(Clone, Copy, Debug, PartialEq, Eq, Structural)]
pub enum PermissionClass {
    Filesystem,
    Network,
    Clock,
    Random,
    Environment,
}

/// The classes of WASI surface a host policy can grant to a component.
#[derive(Clone, Copy, Debug, PartialEq, Eq, Structural)]
pub enum WasiPermissionClass {
    /// Scoped filesystem access (only explicit preopened directories).
    Filesystem,
    /// Scoped network access.
    Network,
    /// Wall-clock and monotonic time.
    Clock,
    /// Randomness source.
    Random,
    /// Environment variables.
    Environment,
}

/// The WASI class of the same name as a manifest class.
pub open spec fn wasi_class_of(class: PermissionClass) -> WasiPermissionClass {
    match class {
        PermissionClass::Filesystem => WasiPermissionClass::Filesystem,
        PermissionClass::Network => WasiPermissionClass::Network,
        PermissionClass::Clock => WasiPermissionClass::Clock,
        PermissionClass::Random => WasiPermissionClass::Random,
        PermissionClass::Environment => WasiPermissionClass::Environment,
    }
}

impl From<PermissionClass> for WasiPermissionClass {
    fn from(class: PermissionClass) -> (w: Self)
        ensures
            class == PermissionClass::Filesystem ==> w == WasiPermissionClass::Filesystem,
            class == PermissionClass::Network ==> w == WasiPermissionClass::Network,
            class == PermissionClass::Clock ==> w == WasiPermissionClass::Clock,
            class == PermissionClass::Random ==> w == WasiPermissionClass::Random,
            class == PermissionClass::Environment ==> w == WasiPermissionClass::Environment,
    {
        match class {
            PermissionClass::Filesystem => WasiPermissionClass::Filesystem,
            PermissionClass::Network => WasiPermissionClass::Network,
            PermissionClass::Clock => WasiPermissionClass::Clock,
            PermissionClass::Random => WasiPermissionClass::Random,
            PermissionClass::Environment => WasiPermissionClass::Environment,
        }
    }
}

impl vstd::std_specs::convert::FromSpecImpl<PermissionClass> for WasiPermissionClass {
    open spec fn obeys_from_spec() -> bool {
        true
    }

    open spec fn from_spec(class: PermissionClass) -> WasiPermissionClass {
        wasi_class_of(class)
    }
}

/// Each manifest permission class maps to the WASI permission class of the
/// same name: filesystem to filesystem, network to network, clock to clock,
/// random to random, environment to environment.
pub proof fn law_permission_classes_keep_their_names(class: PermissionClass)
    ensures
        wasi_class_of(PermissionClass::Filesystem) == WasiPermissionClass::Filesystem,
        wasi_class_of(PermissionClass::Network) == WasiPermissionClass::Network,
        wasi_class_of(PermissionClass::Clock) == WasiPermissionClass::Clock,
        wasi_class_of(PermissionClass::Random) == WasiPermissionClass::Random,
        wasi_class_of(PermissionClass::Environment) == WasiPermissionClass::Environment,
        <WasiPermissionClass as vstd::std_specs::convert::FromSpec<PermissionClass>>::from_spec(
            class,
        ) == wasi_class_of(class),
{
}

/// The granted WASI permission set of one component.
///
/// All classes are default-denied, and the only value that can be built is
/// the all-denied one: the fields are private and no constructor accepts
/// grants. Grants, when a host policy makes them, never come from parsing a
/// manifest.
#[derive(Debug)]
pub struct WasiPermissionSet {
    filesystem: bool,
    network: bool,
    clock: bool,
    random: bool,
    environment: bool,
}

impl WasiPermissionSet {
    /// Whether this set grants `class`.
    pub closed spec fn grants(self, class: WasiPermissionClass) -> bool {
        match class {
            WasiPermissionClass::Filesystem => self.filesystem,
            WasiPermissionClass::Network => self.network,
            WasiPermissionClass::Clock => self.clock,
            WasiPermissionClass::Random => self.random,
            WasiPermissionClass::Environment => self.environment,
        }
    }

    /// Every value grants nothing.
    #[verifier::type_invariant]
    closed spec fn grants_nothing(self) -> bool {
        !self.filesystem && !self.network && !self.clock && !self.random && !self.environment
    }

    /// The all-denied set.
    pub fn none() -> (s: Self)
        ensures
            forall|c: WasiPermissionClass| !s.grants(c),
    {
        WasiPermissionSet {
            filesystem: false,
            network: false,
            clock: false,
            random: false,
            environment: false,
        }
    }

    /// Returns whether `class` is granted by this set; never, since no set
    /// with a grant can be built.
    pub fn is_granted(&self, class: WasiPermissionClass) -> (b: bool)
        ensures
            b == self.grants(class),
            !b,
    {
        proof {
            use_type_invariant(self);
        }
        match class {
            WasiPermissionClass::Filesystem => self.filesystem,
            WasiPermissionClass::Network => self.network,
            WasiPermissionClass::Clock => self.clock,
            WasiPermissionClass::Random => self.random,
            WasiPermissionClass::Environment => self.environment,
        }
    }
}

impl Default for WasiPermissionSet {
    /// The all-denied set.
    fn default() -> (s: Self)
        ensures
            forall|c: WasiPermissionClass| !s.grants(c),
    {
        WasiPermissionSet::none()
    }
}

} // verus!
