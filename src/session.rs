//! One invocation of a grant as a state machine: the session decides, and the
//! program around it performs each request and answers with a reply. No
//! request that changes the filesystem is made before the caller was admitted
//! and the box was found inside the caller's prefix.

use vstd::prelude::*;
use crate::access::{BoxError, Identity, SERVICE};
use crate::grant::{
    changes, check_contained, check_directory, chowns, dispatch, owner_changes, Action,
    PRIVATE_MODE, PUBLIC_MODE,
};
use crate::paths::{ancestors, ancestors_of, contained, expand, expanded, opt_views, views};

verus! {

/// Where a session stands.
#[derive(Clone, Copy, Debug, PartialEq, Eq)]
pub enum Phase {
    /// Waiting for the canonical forms of the box path's candidates.
    Resolving,
    /// Waiting for the box directory to be created.
    Creating,
    /// Waiting for the box directory to be inspected.
    Inspecting,
    /// Waiting for the changes to be carried out.
    Applying,
    /// Over.
    Done,
}

/// What the program has to do next.
#[derive(Debug, PartialEq, Eq)]
pub enum Request {
    /// Resolve each candidate to its canonical form (`None` where it does not
    /// exist) and tell whether the box path itself exists.
    Resolve { path: String, candidates: Vec<String> },
    /// Create this directory with privilege dropped to the caller.
    Create(String),
    /// Resolve this path, tell whether it is a directory, and list the
    /// entries of a walk of it (itself first).
    Inspect(String),
    /// Carry out these changes.
    Apply(Vec<Action>),
    /// The invocation is over, with this outcome.
    Finished(Result<(), BoxError>),
}

/// What the program found or did.
#[derive(Clone, Debug, PartialEq, Eq)]
pub enum Reply {
    Resolved { canonical: Vec<Option<String>>, exists: bool },
    Created,
    Inspected { canonical: String, is_dir: bool, entries: Vec<String> },
    Applied,
}

/// The state of one invocation.
pub struct Session {
    phase: Phase,
    me: Identity,
    prefix: String,
    target: String,
    boxpath: String,
    admitted: Ghost<bool>,
    resolved: Ghost<Seq<Option<Seq<char>>>>,
}

impl Session {
    #[verifier::type_invariant]
    spec fn inv(self) -> bool {
        &&& !(self.phase is Done) ==> self.admitted@
        &&& (self.phase is Creating || self.phase is Inspecting || self.phase is Applying)
            ==> contained(self.resolved@, self.prefix@)
    }

    pub closed spec fn phase_of(self) -> Phase {
        self.phase
    }

    pub closed spec fn caller_of(self) -> Identity {
        self.me
    }

    pub closed spec fn prefix_of(self) -> Seq<char> {
        self.prefix@
    }

    pub closed spec fn target_of(self) -> Seq<char> {
        self.target@
    }

    /// The box path, as expanded from the user's argument.
    pub closed spec fn box_of(self) -> Seq<char> {
        self.boxpath@
    }

    /// Whether the caller was admitted.
    pub closed spec fn admitted_of(self) -> bool {
        self.admitted@
    }

    /// The canonical forms that containment was decided on.
    pub closed spec fn resolved_of(self) -> Seq<Option<Seq<char>>> {
        self.resolved@
    }

    /// Starts the invocation of the caller `me`, given the outcome of their
    /// admission, their prefix, the grant target argument and the box
    /// directory argument.
    pub fn start(
        me: Identity,
        admission: Result<(), BoxError>,
        prefix: &str,
        target: &str,
        boxdir: &str,
    ) -> (r: (Session, Request))
        ensures
            admission is Err ==> r.1 == Request::Finished(Err(admission->Err_0)) && r.0.phase_of() is Done,
            admission is Ok ==> {
                &&& r.0.phase_of() is Resolving
                &&& r.0.admitted_of()
                &&& r.0.caller_of() == me
                &&& r.0.prefix_of() == prefix@
                &&& r.0.target_of() == target@
                &&& r.0.box_of() == expanded(boxdir@, prefix@)
                &&& r.1 is Resolve
                &&& r.1->Resolve_path@ == expanded(boxdir@, prefix@)
                &&& views(r.1->Resolve_candidates@) == ancestors_of(expanded(boxdir@, prefix@))
            },
    {
        let boxpath = expand(boxdir, prefix);
        match admission {
            Ok(()) => {
                let candidates = ancestors(boxpath.as_str());
                let s = Session {
                    phase: Phase::Resolving,
                    me,
                    prefix: String::from_str(prefix),
                    target: String::from_str(target),
                    boxpath,
                    admitted: Ghost(true),
                    resolved: Ghost(Seq::empty()),
                };
                let path = s.boxpath.clone();
                (s, Request::Resolve { path, candidates })
            },
            Err(e) => {
                let s = Session {
                    phase: Phase::Done,
                    me,
                    prefix: String::from_str(prefix),
                    target: String::from_str(target),
                    boxpath,
                    admitted: Ghost(false),
                    resolved: Ghost(Seq::empty()),
                };
                (s, Request::Finished(Err(e)))
            },
        }
    }

    /// The phase the session is in.
    pub fn phase(&self) -> (r: Phase)
        ensures
            r == self.phase_of(),
    {
        self.phase
    }

    fn finish(self, outcome: Result<(), BoxError>) -> (r: (Session, Request))
        ensures
            r.1 == Request::Finished(outcome),
            r.0.phase_of() is Done,
            r.0.caller_of() == self.caller_of(),
            r.0.prefix_of() == self.prefix_of(),
            r.0.target_of() == self.target_of(),
            r.0.box_of() == self.box_of(),
    {
        let s = Session { phase: Phase::Done, ..self };
        (s, Request::Finished(outcome))
    }

    /// Takes the reply to the last request and decides the next one.
    pub fn step(self, reply: Reply) -> (r: (Session, Request))
        ensures
            r.0.caller_of() == self.caller_of(),
            r.0.prefix_of() == self.prefix_of(),
            r.0.target_of() == self.target_of(),
            r.0.box_of() == self.box_of(),
            // a request that changes the filesystem comes only after admission
            // and containment
            r.1 is Create || r.1 is Inspect || r.1 is Apply ==> r.0.admitted_of() && contained(
                r.0.resolved_of(),
                r.0.prefix_of(),
            ),
            r.1 is Create ==> r.1->Create_0@ == self.box_of(),
            self.phase_of() is Resolving && reply is Resolved ==> {
                let cv = opt_views(reply->Resolved_canonical@);
                &&& r.0.resolved_of() == cv
                &&& !contained(cv, self.prefix_of()) ==> (r.1 matches Request::Finished(Err(
                    BoxError::Declined(_),
                ))) && r.0.phase_of() is Done
                &&& contained(cv, self.prefix_of()) && !reply->Resolved_exists ==> r.1
                    is Create && r.0.phase_of() is Creating
                &&& contained(cv, self.prefix_of()) && reply->Resolved_exists ==> r.1 is Inspect
                    && r.1->Inspect_0@ == self.box_of() && r.0.phase_of() is Inspecting
            },
            self.phase_of() is Creating && reply is Created ==> r.1 is Inspect && r.1->Inspect_0@
                == self.box_of() && r.0.phase_of() is Inspecting,
            self.phase_of() is Inspecting && reply is Inspected ==> {
                let root = reply->Inspected_canonical@;
                let es = views(reply->Inspected_entries@);
                let uid = self.caller_of().uid;
                &&& !reply->Inspected_is_dir ==> (r.1 matches Request::Finished(Err(
                    BoxError::Declined(_),
                ))) && r.0.phase_of() is Done
                &&& reply->Inspected_is_dir && self.target_of() == "public"@ ==> r.1 is Apply
                    && changes(r.1->Apply_0@) == owner_changes(root, es, uid, PUBLIC_MODE)
                &&& reply->Inspected_is_dir && self.target_of() == "private"@ ==> r.1 is Apply
                    && changes(r.1->Apply_0@) == owner_changes(root, es, uid, PRIVATE_MODE)
                &&& reply->Inspected_is_dir && self.target_of() != "public"@ && self.target_of()
                    != "private"@ ==> {
                    ||| r.1 is Apply && exists|u: u32| changes(r.1->Apply_0@) == chowns(es, u, SERVICE)
                    ||| (r.1 matches Request::Finished(Err(BoxError::GrantUser(_)))) && r.0.phase_of() is Done
                }
            },
            self.phase_of() is Applying && reply is Applied ==> r.1 == Request::Finished(Ok(()))
                && r.0.phase_of() is Done,
            !(self.phase_of() is Resolving && reply is Resolved) && !(self.phase_of() is Creating
                && reply is Created) && !(self.phase_of() is Inspecting && reply is Inspected) && !(
            self.phase_of() is Applying && reply is Applied) ==> r.1 == Request::Finished(
                Err(BoxError::OutOfOrder),
            ) && r.0.phase_of() is Done,
    {
        proof {
            use_type_invariant(&self);
        }
        match (self.phase, reply) {
            (Phase::Resolving, Reply::Resolved { canonical, exists }) => {
                let ghost cv = opt_views(canonical@);
                match check_contained(self.prefix.as_str(), &canonical) {
                    Ok(()) => {
                        if exists {
                            let s = Session { phase: Phase::Inspecting, resolved: Ghost(cv), ..self };
                            let p = s.boxpath.clone();
                            (s, Request::Inspect(p))
                        } else {
                            let s = Session { phase: Phase::Creating, resolved: Ghost(cv), ..self };
                            let p = s.boxpath.clone();
                            (s, Request::Create(p))
                        }
                    },
                    Err(e) => {
                        let s = Session { phase: Phase::Done, resolved: Ghost(cv), ..self };
                        (s, Request::Finished(Err(e)))
                    },
                }
            },
            (Phase::Creating, Reply::Created) => {
                let s = Session { phase: Phase::Inspecting, ..self };
                let p = s.boxpath.clone();
                (s, Request::Inspect(p))
            },
            (Phase::Inspecting, Reply::Inspected { canonical, is_dir, entries }) => {
                match check_directory(canonical.as_str(), is_dir) {
                    Ok(()) => {
                        match dispatch(self.target.as_str(), canonical.as_str(), &entries, &self.me) {
                            Ok(actions) => {
                                let s = Session { phase: Phase::Applying, ..self };
                                (s, Request::Apply(actions))
                            },
                            Err(e) => self.finish(Err(e)),
                        }
                    },
                    Err(e) => self.finish(Err(e)),
                }
            },
            (Phase::Applying, Reply::Applied) => self.finish(Ok(())),
            _ => self.finish(Err(BoxError::OutOfOrder)),
        }
    }
}

} // verus!
