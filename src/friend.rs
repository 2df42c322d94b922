use crate::money::Money;
use vstd::prelude::*;

verus! {

/// Relies on `uuid::Uuid::now_v7`, taken as its 128-bit value: a fresh,
/// time-ordered identifier. Nothing is promised of the value.
#[verifier::external_body]
pub(crate) fn fresh_id() -> (r: u128) {
    uuid::Uuid::now_v7().as_u128()
}

/// Where the user stands with a friend, with the amount in units of 10^-18.
#[derive(Clone, Copy, Debug, PartialEq, Eq, Structural)]
pub enum Standing {
    /// The user owes the friend this much.
    YouOwe(u128),
    /// Nothing is owed either way.
    Even,
    /// The friend owes the user this much.
    OwesYou(u128),
}

/// A friend and the running balance with them: a negative balance is what the
/// user owes the friend, a positive one what the friend owes the user.
#[derive(Clone, Debug, PartialEq)]
pub struct Friend {
    pub id: u128,
    pub name: String,
    pub image: String,
    pub balance: Money,
}

impl Friend {
    /// A friend with a zero balance.
    pub fn new(id: u128, name: String, image: String) -> (r: Friend)
        ensures
            r.id == id,
            r.name@ == name@,
            r.image@ == image@,
            r.balance@ == 0,
    {
        Friend { id, name, image, balance: Money::zero() }
    }

    pub fn name(self, name: &str) -> (r: Friend)
        ensures
            r.id == self.id,
            r.name@ == name@,
            r.image@ == self.image@,
            r.balance == self.balance,
    {
        Friend { name: name.to_owned(), ..self }
    }

    pub fn image(self, url: &str) -> (r: Friend)
        ensures
            r.id == self.id,
            r.name@ == self.name@,
            r.image@ == url@,
            r.balance == self.balance,
    {
        Friend { image: url.to_owned(), ..self }
    }

    pub fn balance(self, balance: Money) -> (r: Friend)
        ensures
            r.id == self.id,
            r.name@ == self.name@,
            r.image@ == self.image@,
            r.balance == balance,
    {
        Friend { balance, ..self }
    }
}

impl Friend {
    /// Reads the balance: negative is what the user owes, positive what the
    /// friend owes.
    pub fn standing(&self) -> (r: Standing)
        ensures
            self.balance@ < 0 <==> r is YouOwe,
            self.balance@ == 0 <==> r is Even,
            self.balance@ > 0 <==> r is OwesYou,
            r matches Standing::YouOwe(a) ==> a == -self.balance@,
            r matches Standing::OwesYou(a) ==> a == self.balance@,
    {
        let u = self.balance.units();
        if u < 0 {
            Standing::YouOwe(((-(u + 1)) as u128) + 1)
        } else if u == 0 {
            Standing::Even
        } else {
            Standing::OwesYou(u as u128)
        }
    }
}

impl Default for Friend {
    /// A friend with a fresh id, empty name and image, and a zero balance.
    fn default() -> (r: Friend)
        ensures
            r.name@.len() == 0,
            r.image@.len() == 0,
            r.balance@ == 0,
    {
        Friend { id: fresh_id(), name: String::new(), image: String::new(), balance: Money::zero() }
    }
}

} // verus!
