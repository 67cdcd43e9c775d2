//! Initialization levels and the functions the library runs at each.
use vstd::prelude::*;

verus! {

/// The host's value for the core level.
pub const INITIALIZATION_CORE: u32 = 0;

/// The host's value for the servers level.
pub const INITIALIZATION_SERVERS: u32 = 1;

/// The host's value for the scene level.
pub const INITIALIZATION_SCENE: u32 = 2;

/// The host's value for the editor level.
pub const INITIALIZATION_EDITOR: u32 = 3;

/// The number of initialization levels.
pub const LEVELS: usize = 4;

/// A stage of the host's start-up, from the earliest to the latest.
#[derive(Clone, Copy, Debug, PartialEq, Eq, Structural, PartialOrd, Ord, Hash)]
pub enum InitLevel {
    Core,
    Servers,
    Scene,
    Editor,
}

impl InitLevel {
    /// The position of the level, earliest first; also the host's value for it.
    pub open spec fn spec_index(self) -> nat {
        match self {
            InitLevel::Core => 0,
            InitLevel::Servers => 1,
            InitLevel::Scene => 2,
            InitLevel::Editor => 3,
        }
    }

    /// The level of a host value; an unknown value is read as the scene level.
    pub open spec fn spec_from_sys(level: u32) -> InitLevel {
        if level == INITIALIZATION_CORE {
            InitLevel::Core
        } else if level == INITIALIZATION_SERVERS {
            InitLevel::Servers
        } else if level == INITIALIZATION_SCENE {
            InitLevel::Scene
        } else if level == INITIALIZATION_EDITOR {
            InitLevel::Editor
        } else {
            InitLevel::Scene
        }
    }

    /// The level of a host value; an unknown value is read as the scene level.
    pub fn from_sys(level: u32) -> (r: InitLevel)
        ensures
            r == InitLevel::spec_from_sys(level),
    {
        if level == INITIALIZATION_CORE {
            InitLevel::Core
        } else if level == INITIALIZATION_SERVERS {
            InitLevel::Servers
        } else if level == INITIALIZATION_SCENE {
            InitLevel::Scene
        } else if level == INITIALIZATION_EDITOR {
            InitLevel::Editor
        } else {
            InitLevel::Scene
        }
    }

    /// The host value of the level.
    pub fn to_sys(self) -> (r: u32)
        ensures
            r == self.spec_index(),
            InitLevel::spec_from_sys(r) == self,
    {
        match self {
            InitLevel::Core => INITIALIZATION_CORE,
            InitLevel::Servers => INITIALIZATION_SERVERS,
            InitLevel::Scene => INITIALIZATION_SCENE,
            InitLevel::Editor => INITIALIZATION_EDITOR,
        }
    }

    /// The earlier of two levels.
    pub fn earlier(self, other: InitLevel) -> (r: InitLevel)
        ensures
            r == self || r == other,
            r.spec_index() <= self.spec_index(),
            r.spec_index() <= other.spec_index(),
    {
        if other.to_sys() < self.to_sys() {
            other
        } else {
            self
        }
    }
}

impl Default for InitLevel {
    fn default() -> (r: InitLevel)
        ensures
            r == InitLevel::Scene,
    {
        InitLevel::Scene
    }
}

/// The functions to run when the host enters and leaves each level, and the
/// earliest level that has one.
pub struct InitOptions<F> {
    init_levels: Vec<Option<F>>,
    deinit_levels: Vec<Option<F>>,
    lowest_level: InitLevel,
}

impl<F> InitOptions<F> {
    pub open spec fn wf(&self) -> bool {
        self.spec_init_levels().len() == LEVELS && self.spec_deinit_levels().len() == LEVELS
    }

    pub closed spec fn spec_init_levels(&self) -> Seq<Option<F>> {
        self.init_levels@
    }

    pub closed spec fn spec_deinit_levels(&self) -> Seq<Option<F>> {
        self.deinit_levels@
    }

    pub closed spec fn spec_lowest_level(&self) -> InitLevel {
        self.lowest_level
    }

    /// No functions; the lowest level is the scene level.
    pub fn new() -> (r: InitOptions<F>)
        ensures
            r.wf(),
            forall|i: int| 0 <= i < LEVELS ==> #[trigger] r.spec_init_levels()[i] is None,
            forall|i: int| 0 <= i < LEVELS ==> #[trigger] r.spec_deinit_levels()[i] is None,
            r.spec_lowest_level() == InitLevel::Scene,
    {
        let mut init_levels: Vec<Option<F>> = Vec::new();
        let mut deinit_levels: Vec<Option<F>> = Vec::new();
        let mut i: usize = 0;
        while i < LEVELS
            invariant
                i <= LEVELS,
                init_levels@.len() == i,
                deinit_levels@.len() == i,
                forall|j: int| 0 <= j < i ==> #[trigger] init_levels@[j] is None,
                forall|j: int| 0 <= j < i ==> #[trigger] deinit_levels@[j] is None,
            decreases LEVELS - i,
        {
            init_levels.push(None);
            deinit_levels.push(None);
            i = i + 1;
        }
        InitOptions { init_levels, deinit_levels, lowest_level: InitLevel::Scene }
    }

    /// Sets the function run on entering `level`, replacing any earlier one, and
    /// lowers the lowest level to `level` where it is earlier. Says whether a
    /// function was replaced.
    pub fn register_init_function(&mut self, level: InitLevel, f: F) -> (replaced: bool)
        requires
            old(self).wf(),
        ensures
            final(self).wf(),
            replaced == old(self).spec_init_levels()[level.spec_index() as int] is Some,
            final(self).spec_init_levels() == old(self).spec_init_levels().update(level.spec_index() as int, Some(f)),
            final(self).spec_deinit_levels() == old(self).spec_deinit_levels(),
            final(self).spec_lowest_level().spec_index() <= old(self).spec_lowest_level().spec_index(),
            final(self).spec_lowest_level().spec_index() <= level.spec_index(),
            final(self).spec_lowest_level() == old(self).spec_lowest_level() || final(self).spec_lowest_level() == level,
    {
        let i = level.to_sys() as usize;
        let replaced = self.init_levels[i].is_some();
        self.init_levels.set(i, Some(f));
        self.lowest_level = self.lowest_level.earlier(level);
        replaced
    }

    /// Sets the function run on leaving `level`, as `register_init_function` does
    /// for entering it.
    pub fn register_deinit_function(&mut self, level: InitLevel, f: F) -> (replaced: bool)
        requires
            old(self).wf(),
        ensures
            final(self).wf(),
            replaced == old(self).spec_deinit_levels()[level.spec_index() as int] is Some,
            final(self).spec_deinit_levels() == old(self).spec_deinit_levels().update(level.spec_index() as int, Some(f)),
            final(self).spec_init_levels() == old(self).spec_init_levels(),
            final(self).spec_lowest_level().spec_index() <= old(self).spec_lowest_level().spec_index(),
            final(self).spec_lowest_level().spec_index() <= level.spec_index(),
            final(self).spec_lowest_level() == old(self).spec_lowest_level() || final(self).spec_lowest_level() == level,
    {
        let i = level.to_sys() as usize;
        let replaced = self.deinit_levels[i].is_some();
        self.deinit_levels.set(i, Some(f));
        self.lowest_level = self.lowest_level.earlier(level);
        replaced
    }

    /// The earliest level with a registered function, or the scene level.
    pub fn lowest_init_level(&self) -> (r: InitLevel)
        ensures
            r == self.spec_lowest_level(),
    {
        self.lowest_level
    }

    /// The function run on entering `level`, if any.
    pub fn init_function(&self, level: InitLevel) -> (r: Option<&F>)
        requires
            self.wf(),
        ensures
            match r {
                Some(f) => self.spec_init_levels()[level.spec_index() as int] == Some(*f),
                None => self.spec_init_levels()[level.spec_index() as int] is None,
            },
    {
        let i = level.to_sys() as usize;
        match &self.init_levels[i] {
            Some(f) => Some(f),
            None => None,
        }
    }

    /// The function run on leaving `level`, if any.
    pub fn deinit_function(&self, level: InitLevel) -> (r: Option<&F>)
        requires
            self.wf(),
        ensures
            match r {
                Some(f) => self.spec_deinit_levels()[level.spec_index() as int] == Some(*f),
                None => self.spec_deinit_levels()[level.spec_index() as int] is None,
            },
    {
        let i = level.to_sys() as usize;
        match &self.deinit_levels[i] {
            Some(f) => Some(f),
            None => None,
        }
    }
}

impl<F> Default for InitOptions<F> {
    fn default() -> (r: InitOptions<F>)
        ensures
            r.wf(),
            forall|i: int| 0 <= i < LEVELS ==> #[trigger] r.spec_init_levels()[i] is None,
            forall|i: int| 0 <= i < LEVELS ==> #[trigger] r.spec_deinit_levels()[i] is None,
            r.spec_lowest_level() == InitLevel::Scene,
    {
        InitOptions::new()
    }
}

} // verus!
