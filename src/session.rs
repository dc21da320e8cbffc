use vstd::prelude::*;
use crate::profile::User;
use crate::room_code::{chat_path, chat_path_of, generate_code, is_random_code, resolve_code};
use crate::store::{get_user, load_outcome, save_user, Backend, ProfileStore, StorageError};

verus! {

/// The top-level state of a session.
#[derive(Debug, Clone, Copy, PartialEq, Eq, Structural)]
pub enum Phase {
    /// The entry form is shown.
    Entry,
    /// The user has entered the room; there is no way back.
    Joined,
}

/// What the controller holds, as plain values.
pub struct SessionView {
    pub phase: Phase,
    pub name: Seq<char>,
    pub email: Seq<char>,
    pub phone: Seq<char>,
    /// The invitation code; empty while no code is known.
    pub room_code: Seq<char>,
}

/// The state of one session: its phase, the entry form and the room code.
pub struct SessionController {
    phase: Phase,
    name: String,
    email: String,
    phone: String,
    room_code: String,
}

/// `u` is the profile built from the form of `v` at time `created_at`.
pub open spec fn is_profile_of(u: User, v: SessionView, created_at: u64) -> bool {
    &&& u.name@ == v.name
    &&& u.email@ == v.email
    &&& u.phone@ == v.phone
    &&& u.created_at == created_at
}

/// `after` and `nav` are how a submission that found the session in state
/// `before` ends. Entering is unconditional: a known code is kept and nothing
/// is navigated; without one, a fresh random code is taken and exactly one
/// navigation to its address is requested. A session that has already joined
/// is left alone.
pub open spec fn completes_submit(before: SessionView, after: SessionView, nav: Option<Seq<char>>) -> bool {
    if before.phase == Phase::Joined {
        after == before && nav is None
    } else {
        &&& after.phase == Phase::Joined
        &&& after.name == before.name
        &&& after.email == before.email
        &&& after.phone == before.phone
        &&& if before.room_code.len() == 0 {
            &&& is_random_code(after.room_code)
            &&& nav == Some(chat_path_of(after.room_code))
        } else {
            &&& after.room_code == before.room_code
            &&& nav is None
        }
    }
}

/// The navigation a submission requested, as text.
pub open spec fn nav_view(nav: Option<String>) -> Option<Seq<char>> {
    match nav {
        Some(p) => Some(p@),
        None => None,
    }
}

impl View for SessionController {
    type V = SessionView;

    closed spec fn view(&self) -> SessionView {
        SessionView {
            phase: self.phase,
            name: self.name@,
            email: self.email@,
            phone: self.phone@,
            room_code: self.room_code@,
        }
    }
}

impl SessionController {
    /// A session at mount: on the entry form, fields empty, with the code
    /// that the navigation context carries (`None` when it carries none).
    pub fn new(code_param: Option<String>) -> (r: SessionController)
        ensures
            r@.phase == Phase::Entry,
            r@.name.len() == 0,
            r@.email.len() == 0,
            r@.phone.len() == 0,
            r@.room_code == match code_param {
                Some(c) => c@,
                None => Seq::<char>::empty(),
            },
    {
        SessionController {
            phase: Phase::Entry,
            name: String::new(),
            email: String::new(),
            phone: String::new(),
            room_code: resolve_code(code_param),
        }
    }

    /// The phase the session is in.
    pub fn phase(&self) -> (r: Phase)
        ensures
            r == self@.phase,
    {
        self.phase
    }

    /// The name field of the form.
    pub fn name(&self) -> (r: &str)
        ensures
            r@ == self@.name,
    {
        self.name.as_str()
    }

    /// The email field of the form.
    pub fn email(&self) -> (r: &str)
        ensures
            r@ == self@.email,
    {
        self.email.as_str()
    }

    /// The phone field of the form.
    pub fn phone(&self) -> (r: &str)
        ensures
            r@ == self@.phone,
    {
        self.phone.as_str()
    }

    /// The room code; empty while no code is known.
    pub fn room_code(&self) -> (r: &str)
        ensures
            r@ == self@.room_code,
    {
        self.room_code.as_str()
    }

    /// Whether a submission now would create a room rather than join one:
    /// the presence of a code alone decides.
    pub fn is_create_flow(&self) -> (r: bool)
        ensures
            r == (self@.room_code.len() == 0),
    {
        self.room_code.as_str().is_empty()
    }

    /// Takes an edit of the name field.
    pub fn set_name(&mut self, value: String)
        ensures
            final(self)@ == (SessionView { name: value@, ..old(self)@ }),
    {
        self.name = value;
    }

    /// Takes an edit of the email field.
    pub fn set_email(&mut self, value: String)
        ensures
            final(self)@ == (SessionView { email: value@, ..old(self)@ }),
    {
        self.email = value;
    }

    /// Takes an edit of the phone field.
    pub fn set_phone(&mut self, value: String)
        ensures
            final(self)@ == (SessionView { phone: value@, ..old(self)@ }),
    {
        self.phone = value;
    }

    /// Takes in the outcome of loading the saved profile. A profile that was
    /// found overwrites the three fields, whatever was typed; no profile, or
    /// a failed load, leaves the session as it is.
    pub fn apply_loaded_profile(&mut self, loaded: Result<Option<User>, StorageError>)
        ensures
            match loaded {
                Ok(Some(u)) => final(self)@ == (SessionView {
                    name: u.name@,
                    email: u.email@,
                    phone: u.phone@,
                    ..old(self)@
                }),
                _ => final(self)@ == old(self)@,
            },
    {
        match loaded {
            Ok(Some(u)) => {
                self.name = u.name;
                self.email = u.email;
                self.phone = u.phone;
            },
            _ => {},
        }
    }

    /// The profile a submission at time `created_at` saves: the form as it
    /// stands. `None` once the session has joined, when no submission exists.
    pub fn begin_submit(&self, created_at: u64) -> (r: Option<User>)
        ensures
            self@.phase == Phase::Entry <==> r is Some,
            r matches Some(u) ==> is_profile_of(u, self@, created_at),
    {
        match self.phase {
            Phase::Entry => Some(
                User::new(self.name.clone(), self.email.clone(), self.phone.clone(), created_at),
            ),
            Phase::Joined => None,
        }
    }

    /// Ends a submission once its save has settled, however it settled.
    /// Returns the address to navigate to, when a new code was minted.
    pub fn finish_submit(&mut self, saved: Result<(), StorageError>) -> (nav: Option<String>)
        ensures
            completes_submit(old(self)@, final(self)@, nav_view(nav)),
    {
        match self.phase {
            Phase::Joined => None,
            Phase::Entry => {
                let nav = if self.room_code.as_str().is_empty() {
                    let code = generate_code();
                    let path = chat_path(code.as_str());
                    self.room_code = code;
                    Some(path)
                } else {
                    None
                };
                self.phase = Phase::Joined;
                nav
            },
        }
    }

    /// Loads the saved profile from `store` into the form.
    pub fn mount(&mut self, store: &ProfileStore)
        requires
            store.wf(),
        ensures
            match load_outcome(store.kind(), store.records()) {
                Ok(Some(u)) => final(self)@ == (SessionView {
                    name: u.name@,
                    email: u.email@,
                    phone: u.phone@,
                    ..old(self)@
                }),
                _ => final(self)@ == old(self)@,
            },
    {
        let loaded = get_user(store);
        self.apply_loaded_profile(loaded);
    }

    /// Submits the form: saves the profile into `store` (a failed save is
    /// tolerated), then enters the room as [`Self::finish_submit`] does.
    pub fn submit(&mut self, store: &mut ProfileStore, created_at: u64) -> (nav: Option<String>)
        requires
            old(store).wf(),
        ensures
            completes_submit(old(self)@, final(self)@, nav_view(nav)),
            final(store).wf(),
            final(store).kind() == old(store).kind(),
            old(self)@.phase == Phase::Entry && old(store).kind() == Backend::Persistent ==> {
                &&& final(store).records().len() == 1
                &&& is_profile_of(final(store).records()[0], old(self)@, created_at)
            },
            old(self)@.phase == Phase::Joined || old(store).kind() != Backend::Persistent
                ==> final(store).records() == old(store).records(),
    {
        let saved = match self.begin_submit(created_at) {
            Some(u) => save_user(store, u),
            None => Ok(()),
        };
        self.finish_submit(saved)
    }
}

/// Code presence alone decides how a submission enters: with no code, the
/// session joins under a new non-empty well-formed code and exactly one
/// navigation to its address is requested; with a code, the session joins
/// under that same code and nothing is navigated.
pub proof fn lemma_code_decides_entry(before: SessionView, after: SessionView, nav: Option<Seq<char>>)
    requires
        before.phase == Phase::Entry,
        completes_submit(before, after, nav),
    ensures
        after.phase == Phase::Joined,
        before.room_code.len() == 0 ==> {
            &&& after.room_code.len() == 36
            &&& is_random_code(after.room_code)
            &&& nav == Some(chat_path_of(after.room_code))
        },
        before.room_code.len() > 0 ==> after.room_code == before.room_code && nav is None,
{
}

} // verus!
