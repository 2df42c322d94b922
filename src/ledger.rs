use crate::add_form::{field_after, text_of, AddFriendForm};
use crate::error::LedgerError;
use crate::friend::{fresh_id, Friend};
use crate::money::{decimal_parts, text_amount, Money, ParseError};
use crate::registry::{added, balance_added, has_id, ids_unique, index_of, FriendRegistry};
use crate::selection::{selected_after, SelectionState};
use crate::split::{
    delta_of, draft_wf, empty_draft, paid_after, with_bill, with_payer, BillSplitDraft, DraftView, Payer,
};
use vstd::prelude::*;

verus! {

/// The whole session: friends, selection, and the two forms.
pub struct LedgerView {
    pub friends: Seq<Friend>,
    pub selected: Option<u128>,
    pub add_form_open: bool,
    pub draft: DraftView,
}

/// No id twice, a selected friend is registered, with no friend selected the
/// draft is empty, and the draft's amounts come from text input.
pub open spec fn ledger_wf(v: LedgerView) -> bool {
    &&& ids_unique(v.friends)
    &&& draft_wf(v.draft)
    &&& match v.selected {
        Some(id) => has_id(v.friends, id),
        None => v.draft == empty_draft(),
    }
}

/// `after` is `before` with one friend appended, named `name` with image
/// `image` and a zero balance; selection, form flag and draft unchanged.
pub open spec fn form_added(
    before: LedgerView,
    after: LedgerView,
    name: Seq<char>,
    image: Seq<char>,
) -> bool {
    &&& after.friends == before.friends.push(after.friends.last())
    &&& after.friends.last().name@ == name
    &&& after.friends.last().image@ == image
    &&& after.friends.last().balance@ == 0
    &&& after.selected == before.selected
    &&& after.add_form_open == before.add_form_open
    &&& after.draft == before.draft
}

/// Adding friends one by one through the add-friend form, starting from no
/// friends, leaves exactly the friends added, in order: as many as the calls,
/// each with the name and image entered for it and a zero balance.
pub proof fn lemma_form_adds(
    states: Seq<LedgerView>,
    names: Seq<Seq<char>>,
    images: Seq<Seq<char>>,
)
    requires
        states.len() == names.len() + 1,
        images.len() == names.len(),
        states[0].friends.len() == 0,
        forall|k: int|
            0 <= k < names.len() ==> #[trigger] form_added(
                states[k],
                states[k + 1],
                names[k],
                images[k],
            ),
    ensures
        states.last().friends.len() == names.len(),
        forall|k: int|
            0 <= k < names.len() ==> {
                &&& (#[trigger] states.last().friends[k]).name@ == names[k]
                &&& states.last().friends[k].image@ == images[k]
                &&& states.last().friends[k].balance@ == 0
            },
    decreases names.len(),
{
    let n = names.len();
    if n > 0 {
        let m = (n - 1) as int;
        assert(form_added(states[m], states[m + 1], names[m], images[m]));
        let s0 = states.drop_last();
        let n0 = names.drop_last();
        let i0 = images.drop_last();
        assert forall|k: int| 0 <= k < n0.len() implies #[trigger] form_added(
            s0[k],
            s0[k + 1],
            n0[k],
            i0[k],
        ) by {
            assert(form_added(states[k], states[k + 1], names[k], images[k]));
        }
        lemma_form_adds(s0, n0, i0);
        assert(s0.last() == states[m]);
        assert forall|k: int| 0 <= k < n implies {
            &&& (#[trigger] states.last().friends[k]).name@ == names[k]
            &&& states.last().friends[k].image@ == images[k]
            &&& states.last().friends[k].balance@ == 0
        } by {
            if k < m {
                assert(states.last().friends[k] == s0.last().friends[k]);
            }
        }
    }
}

/// A session of the friend ledger. A selected friend is always registered,
/// and with no friend selected the split-bill draft is empty.
pub struct Ledger {
    registry: FriendRegistry,
    selection: SelectionState,
    add_form: AddFriendForm,
    draft: BillSplitDraft,
}

impl View for Ledger {
    type V = LedgerView;

    closed spec fn view(&self) -> LedgerView {
        LedgerView {
            friends: self.registry@,
            selected: self.selection.selected,
            add_form_open: self.selection.add_form_open,
            draft: self.draft@,
        }
    }
}

impl Ledger {
    pub open spec fn wf(&self) -> bool {
        ledger_wf(self@)
    }

    /// The add-friend form's name and image.
    pub closed spec fn form_fields(&self) -> (Option<Seq<char>>, Option<Seq<char>>) {
        (text_of(self.add_form.name), text_of(self.add_form.image))
    }

    pub fn new() -> (r: Ledger)
        ensures
            r.wf(),
            r@.friends == Seq::<Friend>::empty(),
            r@.selected is None,
            !r@.add_form_open,
            r@.draft == empty_draft(),
            r.form_fields() == (None::<Seq<char>>, None::<Seq<char>>),
    {
        Ledger {
            registry: FriendRegistry::new(),
            selection: SelectionState::new(),
            add_form: AddFriendForm::new(),
            draft: BillSplitDraft::new(),
        }
    }

    pub fn friends(&self) -> (r: &Vec<Friend>)
        ensures
            r@ == self@.friends,
    {
        self.registry.list()
    }

    pub fn selection(&self) -> (r: SelectionState)
        ensures
            r.selected == self@.selected,
            r.add_form_open == self@.add_form_open,
    {
        self.selection
    }

    pub fn draft(&self) -> (r: &BillSplitDraft)
        ensures
            r@ == self@.draft,
    {
        &self.draft
    }

    pub fn add_form(&self) -> (r: &AddFriendForm)
        ensures
            (text_of(r.name), text_of(r.image)) == self.form_fields(),
    {
        &self.add_form
    }

    /// The selected friend, if any.
    pub fn selected_friend(&self) -> (r: Option<&Friend>)
        requires
            self.wf(),
        ensures
            r is None <==> self@.selected is None,
            r matches Some(f) ==> Some(f.id) == self@.selected && self@.friends.contains(*f),
    {
        match self.selection.selected {
            Some(id) => self.registry.find(id),
            None => None,
        }
    }

    /// Registers a friend whose id is new.
    pub fn add_friend(&mut self, friend: Friend) -> (r: Result<(), LedgerError>)
        requires
            old(self).wf(),
        ensures
            final(self).wf(),
            r is Ok <==> !has_id(old(self)@.friends, friend.id),
            r matches Err(e) ==> e == LedgerError::DuplicateId,
            final(self)@ == (LedgerView { friends: added(old(self)@.friends, friend), ..old(self)@ }),
            final(self).form_fields() == old(self).form_fields(),
    {
        let r = self.registry.add(friend);
        proof {
            if let Some(s) = self.selection.selected {
                let j = choose|j: int|
                    0 <= j < old(self).registry@.len() && old(self).registry@[j].id == s;
                assert(self.registry@[j].id == s);
            }
        }
        r
    }

    /// Removes a friend, and clears the selection if it was theirs.
    pub fn remove_friend(&mut self, id: u128)
        requires
            old(self).wf(),
        ensures
            final(self).wf(),
            !has_id(final(self)@.friends, id),
            !has_id(old(self)@.friends, id) ==> final(self)@.friends == old(self)@.friends,
            has_id(old(self)@.friends, id) ==> final(self)@.friends == old(self)@.friends.remove(
                index_of(old(self)@.friends, id),
            ),
            old(self)@.selected == Some(id) ==> final(self)@.selected is None
                && final(self)@.draft == empty_draft(),
            old(self)@.selected != Some(id) ==> final(self)@.selected == old(self)@.selected
                && final(self)@.draft == old(self)@.draft,
            final(self)@.add_form_open == old(self)@.add_form_open,
            final(self).form_fields() == old(self).form_fields(),
    {
        proof {
            if has_id(self.registry@, id) {
                let i = choose|i: int|
                    0 <= i < self.registry@.len() && self.registry@[i].id == id;
                crate::registry::lemma_index_of(self.registry@, id, i);
            }
        }
        self.registry.remove(id);
        let was_selected = match self.selection.selected {
            Some(s) => s == id,
            None => false,
        };
        if was_selected {
            self.selection.clear_selection();
            self.draft.clear();
        }
        proof {
            if let Some(s) = self.selection.selected {
                assert(has_id(old(self).registry@, s));
                let j = choose|j: int|
                    0 <= j < old(self).registry@.len() && old(self).registry@[j].id == s;
                let i = choose|i: int|
                    0 <= i < old(self).registry@.len() && old(self).registry@[i].id == id
                        && self.registry@ == old(self).registry@.remove(i);
                if has_id(old(self).registry@, id) {
                    if j < i {
                        assert(self.registry@[j].id == s);
                    } else {
                        assert(self.registry@[j - 1].id == s);
                    }
                }
            }
        }
    }

    pub fn toggle_add_friend_form(&mut self)
        requires
            old(self).wf(),
        ensures
            final(self).wf(),
            final(self)@ == (LedgerView { add_form_open: !old(self)@.add_form_open, ..old(self)@ }),
            final(self).form_fields() == old(self).form_fields(),
    {
        self.selection.toggle_add_friend();
    }

    /// Selects a registered friend, or deselects them when they are the one
    /// selected. Either way the add-friend form closes and a fresh split-bill
    /// draft starts.
    pub fn select_friend(&mut self, id: u128) -> (r: Result<(), LedgerError>)
        requires
            old(self).wf(),
        ensures
            final(self).wf(),
            r is Ok <==> has_id(old(self)@.friends, id),
            r matches Err(e) ==> e == LedgerError::NotFound && final(self)@ == old(self)@,
            r is Ok ==> final(self)@ == (LedgerView {
                selected: selected_after(old(self)@.selected, id),
                add_form_open: false,
                draft: empty_draft(),
                ..old(self)@
            }),
            final(self).form_fields() == old(self).form_fields(),
    {
        if self.registry.position(id).is_none() {
            return Err(LedgerError::NotFound);
        }
        self.selection.select(id);
        self.draft.clear();
        Ok(())
    }

    /// Enters the bill of the split from text. With no friend selected the
    /// text is not read and nothing changes.
    pub fn set_bill_field(&mut self, text: &str) -> (r: Result<(), ParseError>)
        requires
            old(self).wf(),
        ensures
            final(self).wf(),
            final(self).form_fields() == old(self).form_fields(),
            old(self)@.selected is None ==> r is Ok && final(self)@ == old(self)@,
            old(self)@.selected is Some ==> {
                &&& r is Ok <==> text_amount(text@) is Some
                &&& r == Err::<(), ParseError>(ParseError::Malformed) <==> decimal_parts(text@) is None
                &&& r is Err ==> final(self)@ == old(self)@
                &&& text_amount(text@) matches Some(b) ==> final(self)@ == (LedgerView {
                    draft: with_bill(old(self)@.draft, b),
                    ..old(self)@
                })
            },
    {
        if self.selection.selected.is_none() {
            return Ok(());
        }
        self.draft.set_bill(text)
    }

    /// Enters the user's expense from text: taken only when a bill is set and
    /// the amount does not exceed it. With no friend selected the text is not
    /// read and nothing changes.
    pub fn set_paid_by_user_field(&mut self, text: &str) -> (r: Result<(), ParseError>)
        requires
            old(self).wf(),
        ensures
            final(self).wf(),
            final(self).form_fields() == old(self).form_fields(),
            old(self)@.selected is None ==> r is Ok && final(self)@ == old(self)@,
            old(self)@.selected is Some ==> {
                &&& r is Ok <==> text_amount(text@) is Some
                &&& r == Err::<(), ParseError>(ParseError::Malformed) <==> decimal_parts(text@) is None
                &&& r is Err ==> final(self)@ == old(self)@
                &&& text_amount(text@) matches Some(x) ==> final(self)@ == (LedgerView {
                    draft: paid_after(old(self)@.draft, x),
                    ..old(self)@
                })
            },
    {
        if self.selection.selected.is_none() {
            return Ok(());
        }
        self.draft.set_paid_by_user(text)
    }

    /// Says who fronted the bill. With no friend selected nothing changes.
    pub fn set_payer(&mut self, payer: Payer)
        requires
            old(self).wf(),
        ensures
            final(self).wf(),
            final(self).form_fields() == old(self).form_fields(),
            old(self)@.selected is None ==> final(self)@ == old(self)@,
            old(self)@.selected is Some ==> final(self)@ == (LedgerView {
                draft: with_payer(old(self)@.draft, payer),
                ..old(self)@
            }),
    {
        if self.selection.selected.is_some() {
            self.draft.set_payer(payer);
        }
    }

    /// Discards the split-bill draft; the selection stays.
    pub fn clear_split_draft(&mut self)
        requires
            old(self).wf(),
        ensures
            final(self).wf(),
            final(self).form_fields() == old(self).form_fields(),
            final(self)@ == (LedgerView { draft: empty_draft(), ..old(self)@ }),
    {
        self.draft.clear();
    }

    /// Applies the split to the selected friend's balance, then discards the
    /// draft. Hands back the friend's id and the delta applied.
    pub fn submit_split(&mut self) -> (r: Result<(u128, Money), LedgerError>)
        requires
            old(self).wf(),
        ensures
            final(self).wf(),
            final(self).form_fields() == old(self).form_fields(),
            final(self)@.selected == old(self)@.selected,
            final(self)@.add_form_open == old(self)@.add_form_open,
            delta_of(old(self)@.draft) is None ==> r == Err::<(u128, Money), LedgerError>(
                LedgerError::NoBillEntered,
            ),
            r is Err ==> final(self)@ == old(self)@,
            delta_of(old(self)@.draft) matches Some(d) ==> old(self)@.selected matches Some(id) && {
                let i = index_of(old(self)@.friends, id);
                &&& r is Ok <==> crate::money::fits_i128(old(self)@.friends[i].balance@ + d)
                &&& r is Err ==> r == Err::<(u128, Money), LedgerError>(
                    LedgerError::BalanceOverflow,
                )
                &&& r matches Ok((fid, x)) ==> fid == id && x@ == d
                &&& r is Ok ==> balance_added(old(self)@.friends, final(self)@.friends, i, d)
                &&& r is Ok ==> final(self)@.draft == empty_draft()
            },
    {
        match self.selection.selected {
            None => Err(LedgerError::NoBillEntered),
            Some(id) => {
                let r = self.draft.submit(id, &mut self.registry);
                proof {
                    if let Some(s) = self.selection.selected {
                        let j = choose|j: int|
                            0 <= j < old(self).registry@.len() && old(self).registry@[j].id == s;
                        assert(self.registry@[j].id == s);
                    }
                }
                r
            },
        }
    }

    /// Enters the new friend's name; blank text is ignored.
    pub fn set_friend_name_field(&mut self, text: &str)
        requires
            old(self).wf(),
        ensures
            final(self).wf(),
            final(self)@ == old(self)@,
            final(self).form_fields() == (field_after(old(self).form_fields().0, text@), old(
                self,
            ).form_fields().1),
    {
        self.add_form.set_name(text);
    }

    /// Enters the new friend's image; blank text is ignored.
    pub fn set_friend_image_field(&mut self, text: &str)
        requires
            old(self).wf(),
        ensures
            final(self).wf(),
            final(self)@ == old(self)@,
            final(self).form_fields() == (old(self).form_fields().0, field_after(
                old(self).form_fields().1,
                text@,
            )),
    {
        self.add_form.set_image(text);
    }

    /// Registers a friend with this id, named by the add-friend form, and
    /// clears the form. Hands back the new friend's id.
    pub fn submit_add_friend_with_id(&mut self, id: u128) -> (r: Result<u128, LedgerError>)
        requires
            old(self).wf(),
        ensures
            final(self).wf(),
            r is Err ==> final(self)@ == old(self)@ && final(self).form_fields() == old(
                self,
            ).form_fields(),
            !old(self).add_form_complete() ==> r == Err::<u128, LedgerError>(
                LedgerError::IncompleteForm,
            ),
            old(self).add_form_complete() && has_id(old(self)@.friends, id) ==> r == Err::<
                u128,
                LedgerError,
            >(LedgerError::DuplicateId),
            old(self).add_form_complete() && !has_id(old(self)@.friends, id) ==> {
                &&& r == Ok::<u128, LedgerError>(id)
                &&& final(self)@.friends.len() == old(self)@.friends.len() + 1
                &&& final(self)@.friends.drop_last() == old(self)@.friends
                &&& final(self)@.friends.last().id == id
                &&& Some(final(self)@.friends.last().name@) == old(self).form_fields().0
                &&& Some(final(self)@.friends.last().image@) == old(self).form_fields().1
                &&& final(self)@.friends.last().balance@ == 0
                &&& final(self)@.selected == old(self)@.selected
                &&& final(self)@.add_form_open == old(self)@.add_form_open
                &&& final(self)@.draft == old(self)@.draft
                &&& final(self).form_fields() == (None::<Seq<char>>, None::<Seq<char>>)
                &&& form_added(
                    old(self)@,
                    final(self)@,
                    old(self).form_fields().0.unwrap(),
                    old(self).form_fields().1.unwrap(),
                )
            },
    {
        if self.add_form.name.is_none() || self.add_form.image.is_none() {
            return Err(LedgerError::IncompleteForm);
        }
        if self.registry.position(id).is_some() {
            return Err(LedgerError::DuplicateId);
        }
        let friend = match self.add_form.submit_with_id(id) {
            Ok(f) => f,
            Err(e) => {
                return Err(e);
            },
        };
        match self.add_friend(friend) {
            Ok(()) => {
                assert(self@.friends.drop_last() == old(self)@.friends);
                Ok(id)
            },
            Err(e) => Err(e),
        }
    }

    /// Registers a friend with a fresh id, named by the add-friend form, and
    /// clears the form. Fails with `IncompleteForm` when a field is unset, and
    /// with `DuplicateId` in the unlikely case that the fresh id is taken.
    pub fn submit_add_friend(&mut self) -> (r: Result<u128, LedgerError>)
        requires
            old(self).wf(),
        ensures
            final(self).wf(),
            r is Err ==> final(self)@ == old(self)@ && final(self).form_fields() == old(
                self,
            ).form_fields(),
            !old(self).add_form_complete() ==> r == Err::<u128, LedgerError>(
                LedgerError::IncompleteForm,
            ),
            r matches Err(e) ==> e == LedgerError::IncompleteForm || e == LedgerError::DuplicateId,
            old(self).add_form_complete() ==> r != Err::<u128, LedgerError>(
                LedgerError::IncompleteForm,
            ),
            old(self).add_form_complete() && old(self)@.friends.len() == 0 ==> r is Ok,
            r is Ok ==> form_added(
                old(self)@,
                final(self)@,
                old(self).form_fields().0.unwrap(),
                old(self).form_fields().1.unwrap(),
            ),
            r matches Ok(id) ==> {
                &&& !has_id(old(self)@.friends, id)
                &&& final(self)@.friends == old(self)@.friends.push(final(self)@.friends.last())
                &&& final(self)@.friends.last().id == id
                &&& Some(final(self)@.friends.last().name@) == old(self).form_fields().0
                &&& Some(final(self)@.friends.last().image@) == old(self).form_fields().1
                &&& final(self)@.friends.last().balance@ == 0
                &&& final(self).form_fields() == (None::<Seq<char>>, None::<Seq<char>>)
            },
    {
        if self.add_form.name.is_none() || self.add_form.image.is_none() {
            return Err(LedgerError::IncompleteForm);
        }
        self.submit_add_friend_with_id(fresh_id())
    }

    pub open spec fn add_form_complete(&self) -> bool {
        self.form_fields().0 is Some && self.form_fields().1 is Some
    }
}

} // verus!
