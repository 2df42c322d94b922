use crate::error::LedgerError;
use crate::friend::{fresh_id, Friend};
use vstd::prelude::*;

verus! {

/// What `str::trim` leaves of a text.
pub uninterp spec fn trimmed(s: Seq<char>) -> Seq<char>;

/// Relies on `str::trim`: the text without leading and trailing white space;
/// an empty text stays empty.
#[verifier::external_body]
fn trim_text(s: &str) -> (r: &str)
    ensures
        r@ == trimmed(s@),
        s@.len() == 0 ==> r@.len() == 0,
{
    s.trim()
}

pub open spec fn is_blank(s: Seq<char>) -> bool {
    trimmed(s).len() == 0
}

pub open spec fn text_of(o: Option<String>) -> Option<Seq<char>> {
    match o {
        Some(s) => Some(s@),
        None => None,
    }
}

/// The field after entering `text`: blank input keeps the old value.
pub open spec fn field_after(field: Option<Seq<char>>, text: Seq<char>) -> Option<Seq<char>> {
    if is_blank(text) {
        field
    } else {
        Some(text)
    }
}

/// The draft of a new friend: a name and an image, each set or not.
pub struct AddFriendForm {
    pub name: Option<String>,
    pub image: Option<String>,
}

impl AddFriendForm {
    pub fn new() -> (r: AddFriendForm)
        ensures
            r.name is None,
            r.image is None,
    {
        AddFriendForm { name: None, image: None }
    }

    pub open spec fn is_complete(&self) -> bool {
        self.name is Some && self.image is Some
    }

    pub fn set_name(&mut self, text: &str)
        ensures
            text_of(final(self).name) == field_after(text_of(old(self).name), text@),
            text_of(final(self).image) == text_of(old(self).image),
    {
        if !trim_text(text).is_empty() {
            self.name = Some(text.to_owned());
        }
    }

    pub fn set_image(&mut self, text: &str)
        ensures
            text_of(final(self).image) == field_after(text_of(old(self).image), text@),
            text_of(final(self).name) == text_of(old(self).name),
    {
        if !trim_text(text).is_empty() {
            self.image = Some(text.to_owned());
        }
    }

    /// Makes a friend with this id from a complete form, and clears the form.
    pub fn submit_with_id(&mut self, id: u128) -> (r: Result<Friend, LedgerError>)
        ensures
            r is Ok <==> old(self).is_complete(),
            r matches Err(e) ==> e == LedgerError::IncompleteForm && text_of(final(self).name)
                == text_of(old(self).name) && text_of(final(self).image) == text_of(
                old(self).image,
            ),
            r matches Ok(f) ==> {
                &&& f.id == id
                &&& Some(f.name@) == text_of(old(self).name)
                &&& Some(f.image@) == text_of(old(self).image)
                &&& f.balance@ == 0
                &&& final(self).name is None
                &&& final(self).image is None
            },
    {
        if self.name.is_none() || self.image.is_none() {
            return Err(LedgerError::IncompleteForm);
        }
        let name = self.name.take().unwrap();
        let image = self.image.take().unwrap();
        Ok(Friend::new(id, name, image))
    }

    /// Makes a friend with a fresh id from a complete form, and clears the form.
    pub fn submit(&mut self) -> (r: Result<Friend, LedgerError>)
        ensures
            r is Ok <==> old(self).is_complete(),
            r matches Err(e) ==> e == LedgerError::IncompleteForm && text_of(final(self).name)
                == text_of(old(self).name) && text_of(final(self).image) == text_of(
                old(self).image,
            ),
            r matches Ok(f) ==> {
                &&& Some(f.name@) == text_of(old(self).name)
                &&& Some(f.image@) == text_of(old(self).image)
                &&& f.balance@ == 0
                &&& final(self).name is None
                &&& final(self).image is None
            },
    {
        if self.name.is_none() || self.image.is_none() {
            return Err(LedgerError::IncompleteForm);
        }
        self.submit_with_id(fresh_id())
    }
}

} // verus!
