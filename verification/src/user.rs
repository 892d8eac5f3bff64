//! A user: an account, and the planes it pilots.
//!
//! Linking ties a user and a plane together in both directions: the plane
//! records its pilot, and the user records the plane. Either both records
//! are made or neither.

use crate::error::GameError;
use crate::ids::{is_random_uuid, PlaneId, UserId};
use crate::plane::{Plane, PlaneView};
use vstd::prelude::*;

verus! {

/// One account.
#[derive(Debug)]
pub struct User {
    id: UserId,
    username: String,
    planes: Vec<PlaneId>,
}

/// What a user is, as a mathematical value.
pub struct UserView {
    pub id: UserId,
    pub username: Seq<char>,
    /// The planes that the user pilots, in the order in which they were
    /// linked.
    pub planes: Seq<PlaneId>,
}

impl UserView {
    /// The user as it is created: without planes.
    pub open spec fn fresh(id: UserId, username: Seq<char>) -> UserView {
        UserView { id, username, planes: Seq::empty() }
    }

    /// What linking the user to `plane` gives: the user with the plane
    /// recorded last and the plane with the user as its pilot, or the
    /// refusal of the plane to take that pilot.
    pub open spec fn link(self, plane: PlaneView) -> Result<(UserView, PlaneView), GameError> {
        match plane.set_pilot(self.id) {
            Ok(linked) => Ok((UserView { planes: self.planes.push(plane.id), ..self }, linked)),
            Err(e) => Err(e),
        }
    }
}

impl View for User {
    type V = UserView;

    closed spec fn view(&self) -> UserView {
        UserView { id: self.id, username: self.username@, planes: self.planes@ }
    }
}

impl User {
    /// A user without planes, under a freshly drawn identifier.
    pub fn new(username: String) -> (user: User)
        ensures
            user@ == UserView::fresh(user@.id, username@),
            is_random_uuid(user@.id.value),
    {
        User::with_id(UserId::generate(), username)
    }

    /// A user without planes, under the identifier `id`.
    pub fn with_id(id: UserId, username: String) -> (user: User)
        ensures
            user@ == UserView::fresh(id, username@),
    {
        User { id, username, planes: Vec::new() }
    }

    /// The identifier of the user.
    pub fn id(&self) -> (id: UserId)
        ensures
            id == self@.id,
    {
        self.id
    }

    /// The display name of the user.
    pub fn username(&self) -> (username: &str)
        ensures
            username@ == self@.username,
    {
        self.username.as_str()
    }

    /// The planes that the user pilots, in the order in which they were
    /// linked.
    pub fn planes(&self) -> (planes: &Vec<PlaneId>)
        ensures
            planes@ == self@.planes,
    {
        &self.planes
    }

    /// Makes the user the pilot of `plane`. Where the plane refuses the
    /// pilot, neither the user nor the plane changes.
    pub fn link(&mut self, plane: &mut Plane) -> (r: Result<(), GameError>)
        ensures
            match old(self)@.link(old(plane)@) {
                Ok((user, linked)) => r is Ok && final(self)@ == user && final(plane)@ == linked,
                Err(e) => {
                    &&& r == Err::<(), _>(e)
                    &&& final(self)@ == old(self)@
                    &&& final(plane)@ == old(plane)@
                },
            },
            old(plane)@.set_pilot(old(self)@.id) is Err ==> final(self)@.planes == old(
                self,
            )@.planes,
            old(plane)@.wf() ==> final(plane)@.wf(),
    {
        match plane.set_pilot(self.id) {
            Ok(()) => {
                self.planes.push(plane.id());
                Ok(())
            },
            Err(e) => Err(e),
        }
    }
}

} // verus!
