//! Versions and states that a plugin reports to, or receives from, the
//! game's plugin loader.
use core::marker::PhantomData;
use vstd::prelude::*;

verus! {

/// The pre-release part of a semantic version.
#[derive(Debug, Clone, Copy, PartialEq, Eq, Structural)]
pub struct PrereleaseInfo {
    pub kind: u32,
    pub number: u32,
}

/// A version number in the semantic versioning format.
#[derive(Debug, Clone, Copy, PartialEq, Eq, Structural)]
pub struct SemVer {
    pub major: u8,
    pub minor: u16,
    pub patch: u32,
    pub prerelease: PrereleaseInfo,
}

impl SemVer {
    /// A release version, with no pre-release part.
    pub fn new(major: u8, minor: u16, patch: u32) -> (v: SemVer)
        ensures
            v == (SemVer { major, minor, patch, prerelease: PrereleaseInfo { kind: 0, number: 0 } }),
    {
        SemVer { major, minor, patch, prerelease: PrereleaseInfo { kind: 0, number: 0 } }
    }
}

/// The version of a plugin.
#[derive(Debug, Clone, Copy, PartialEq, Eq, Structural)]
pub struct Version {
    pub major: u8,
    pub minor: u16,
    pub patch: u32,
}

impl Version {
    pub fn new(major: u8, minor: u16, patch: u32) -> (v: Version)
        ensures
            v == (Version { major, minor, patch }),
    {
        Version { major, minor, patch }
    }
}

/// Why the loader calls a plugin's entry point.
#[derive(Debug, Clone, Copy, PartialEq, Eq, Structural)]
pub enum EMainReason {
    Load,
    Unload,
}

/// The table of hooking functions the loader hands to a plugin.
#[derive(Debug)]
pub struct Hooking;

/// The table of game-state functions the loader hands to a plugin.
#[derive(Debug)]
pub struct GameStates;

/// The states of the game application that a listener can be attached to.
#[derive(Debug, Clone, Copy, PartialEq, Eq, Structural)]
pub enum StateType {
    BaseInitialization,
    Initialization,
    Running,
    Shutdown,
}

impl StateType {
    /// The number by which the loader identifies the state.
    pub open spec fn spec_id(self) -> u32 {
        match self {
            StateType::BaseInitialization => 0,
            StateType::Initialization => 1,
            StateType::Running => 2,
            StateType::Shutdown => 3,
        }
    }

    /// The number by which the loader identifies the state.
    pub fn id(&self) -> (id: u32)
        ensures
            id == self.spec_id(),
    {
        match self {
            StateType::BaseInitialization => 0,
            StateType::Initialization => 1,
            StateType::Running => 2,
            StateType::Shutdown => 3,
        }
    }
}


/// A plugin: its version, and what it does when the game registers types,
/// after it registered them, and when the plugin is unloaded.
pub trait Plugin {
    fn version() -> Version;

    fn register() {
    }

    fn post_register() {
    }

    fn unload() {
    }
}


/// A detour installed over a game function: the function `original` that
/// the game calls in its place, and the addresses of the slots that hold
/// the target function and the detour once the hook is attached.
#[derive(Debug)]
pub struct Hook<O, R> {
    original: O,
    cb_ref: usize,
    detour_ref: usize,
    marker: PhantomData<R>,
}

impl<O, R> Hook<O, R> {
    /// The function the game calls in place of the target.
    pub closed spec fn spec_original(&self) -> O {
        self.original
    }

    /// The address of the slot that holds the target function.
    pub closed spec fn spec_cb_ref(&self) -> usize {
        self.cb_ref
    }

    /// The address of the slot that holds the detour.
    pub closed spec fn spec_detour_ref(&self) -> usize {
        self.detour_ref
    }

    pub fn new(original: O, cb_ref: usize, detour_ref: usize) -> (h: Hook<O, R>)
        ensures
            h.spec_original() == original,
            h.spec_cb_ref() == cb_ref,
            h.spec_detour_ref() == detour_ref,
    {
        Hook { original, cb_ref, detour_ref, marker: PhantomData }
    }

    /// The function the game calls in place of the target.
    pub fn original(&self) -> (o: &O)
        ensures
            *o == self.spec_original(),
    {
        &self.original
    }

    /// The addresses of the slots of the target function and of the detour.
    pub fn slots(&self) -> (r: (usize, usize))
        ensures
            r == (self.spec_cb_ref(), self.spec_detour_ref()),
    {
        (self.cb_ref, self.detour_ref)
    }
}

/// The callbacks run when a game state is entered, updated and exited. `H`
/// is the type of a callback.
#[derive(Debug)]
pub struct StateListener<H> {
    on_enter: Option<H>,
    on_update: Option<H>,
    on_exit: Option<H>,
}

impl<H> StateListener<H> {
    /// The callback run when the state is entered.
    pub closed spec fn spec_on_enter(&self) -> Option<H> {
        self.on_enter
    }

    /// The callback run while the state is updated.
    pub closed spec fn spec_on_update(&self) -> Option<H> {
        self.on_update
    }

    /// The callback run when the state is exited.
    pub closed spec fn spec_on_exit(&self) -> Option<H> {
        self.on_exit
    }

    /// Sets the callback run when the state is entered; the others are kept.
    pub fn with_on_enter(self, cb: H) -> (l: StateListener<H>)
        ensures
            l.spec_on_enter() == Some(cb),
            l.spec_on_update() == self.spec_on_update(),
            l.spec_on_exit() == self.spec_on_exit(),
    {
        StateListener { on_enter: Some(cb), ..self }
    }

    /// Sets the callback run while the state is updated; the others are
    /// kept.
    pub fn with_on_update(self, cb: H) -> (l: StateListener<H>)
        ensures
            l.spec_on_enter() == self.spec_on_enter(),
            l.spec_on_update() == Some(cb),
            l.spec_on_exit() == self.spec_on_exit(),
    {
        StateListener { on_update: Some(cb), ..self }
    }

    /// Sets the callback run when the state is exited; the others are kept.
    pub fn with_on_exit(self, cb: H) -> (l: StateListener<H>)
        ensures
            l.spec_on_enter() == self.spec_on_enter(),
            l.spec_on_update() == self.spec_on_update(),
            l.spec_on_exit() == Some(cb),
    {
        StateListener { on_exit: Some(cb), ..self }
    }

    /// The callbacks run on entering, updating and exiting the state.
    pub fn callbacks(&self) -> (r: (&Option<H>, &Option<H>, &Option<H>))
        ensures
            *r.0 == self.spec_on_enter(),
            *r.1 == self.spec_on_update(),
            *r.2 == self.spec_on_exit(),
    {
        (&self.on_enter, &self.on_update, &self.on_exit)
    }
}

impl<H> Default for StateListener<H> {
    /// A listener with no callback.
    fn default() -> (l: StateListener<H>)
        ensures
            l.spec_on_enter() is None,
            l.spec_on_update() is None,
            l.spec_on_exit() is None,
    {
        StateListener { on_enter: None, on_update: None, on_exit: None }
    }
}

} // verus!
