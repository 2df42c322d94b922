use crate::error::LedgerError;
use crate::money::{decimal_parts, in_amount_range, text_amount, Money, ParseError};
use crate::registry::{balance_added, delta_result, index_of, FriendRegistry};
use vstd::prelude::*;

verus! {

/// Who fronted the bill.
#[derive(Clone, Copy, Debug, PartialEq, Eq, Structural)]
pub enum Payer {
    User,
    Friend,
}

/// A split-bill draft as amounts in units of 10^-18.
pub struct DraftView {
    pub bill: Option<int>,
    pub paid_by_user: int,
    pub payer: Payer,
}

pub open spec fn empty_draft() -> DraftView {
    DraftView { bill: None, paid_by_user: 0, payer: Payer::User }
}

/// Amounts in a draft come from text input.
pub open spec fn draft_wf(d: DraftView) -> bool {
    &&& d.bill matches Some(b) ==> in_amount_range(b)
    &&& in_amount_range(d.paid_by_user)
}

pub open spec fn with_bill(d: DraftView, b: int) -> DraftView {
    DraftView { bill: Some(b), ..d }
}

pub open spec fn with_payer(d: DraftView, payer: Payer) -> DraftView {
    DraftView { payer, ..d }
}

/// The draft after offering `amount` as the user's expense: taken only when a
/// bill is set and the amount does not exceed it.
pub open spec fn paid_after(d: DraftView, amount: int) -> DraftView {
    match d.bill {
        Some(b) => if amount <= b {
            DraftView { paid_by_user: amount, ..d }
        } else {
            d
        },
        None => d,
    }
}

/// The friend's share of the bill: what the user did not pay.
pub open spec fn friend_share_of(d: DraftView) -> Option<int> {
    match d.bill {
        Some(b) => Some(b - d.paid_by_user),
        None => None,
    }
}

/// What a submission adds to the friend's balance.
pub open spec fn delta_of(d: DraftView) -> Option<int> {
    match d.bill {
        None => None,
        Some(b) => match d.payer {
            Payer::User => Some(b - d.paid_by_user),
            Payer::Friend => Some(-d.paid_by_user),
        },
    }
}

/// The state of the split-bill form for the selected friend.
pub struct BillSplitDraft {
    bill: Option<Money>,
    paid_by_user: Money,
    payer: Payer,
}

impl View for BillSplitDraft {
    type V = DraftView;

    closed spec fn view(&self) -> DraftView {
        DraftView {
            bill: match self.bill {
                Some(b) => Some(b@),
                None => None,
            },
            paid_by_user: self.paid_by_user@,
            payer: self.payer,
        }
    }
}

impl BillSplitDraft {
    pub open spec fn wf(&self) -> bool {
        draft_wf(self@)
    }

    pub fn new() -> (r: BillSplitDraft)
        ensures
            r@ == empty_draft(),
            r.wf(),
    {
        BillSplitDraft { bill: None, paid_by_user: Money::zero(), payer: Payer::User }
    }

    pub fn bill(&self) -> (r: Option<Money>)
        ensures
            r is None <==> self@.bill is None,
            r matches Some(b) ==> self@.bill == Some(b@),
    {
        self.bill
    }

    pub fn paid_by_user(&self) -> (r: Money)
        ensures
            r@ == self@.paid_by_user,
    {
        self.paid_by_user
    }

    pub fn payer(&self) -> (r: Payer)
        ensures
            r == self@.payer,
    {
        self.payer
    }

    /// Enters the bill from text; a text that gives no amount leaves the draft
    /// as it was.
    pub fn set_bill(&mut self, text: &str) -> (r: Result<(), ParseError>)
        requires
            old(self).wf(),
        ensures
            final(self).wf(),
            r is Ok <==> text_amount(text@) is Some,
            r == Err::<(), ParseError>(ParseError::Malformed) <==> decimal_parts(text@) is None,
            r is Err ==> final(self)@ == old(self)@,
            text_amount(text@) matches Some(b) ==> final(self)@ == with_bill(old(self)@, b),
    {
        match Money::parse(text) {
            Ok(b) => {
                self.bill = Some(b);
                Ok(())
            },
            Err(e) => Err(e),
        }
    }

    /// Offers an amount as the user's expense.
    pub fn offer_paid_by_user(&mut self, amount: Money)
        requires
            old(self).wf(),
            amount.is_amount(),
        ensures
            final(self).wf(),
            final(self)@ == paid_after(old(self)@, amount@),
    {
        match self.bill {
            Some(b) => {
                if amount.le(&b) {
                    self.paid_by_user = amount;
                }
            },
            None => {},
        }
    }

    /// Enters the user's expense from text; it is taken only when a bill is
    /// set and the amount does not exceed it.
    pub fn set_paid_by_user(&mut self, text: &str) -> (r: Result<(), ParseError>)
        requires
            old(self).wf(),
        ensures
            final(self).wf(),
            r is Ok <==> text_amount(text@) is Some,
            r == Err::<(), ParseError>(ParseError::Malformed) <==> decimal_parts(text@) is None,
            r is Err ==> final(self)@ == old(self)@,
            text_amount(text@) matches Some(x) ==> final(self)@ == paid_after(old(self)@, x),
    {
        match Money::parse(text) {
            Ok(x) => {
                self.offer_paid_by_user(x);
                Ok(())
            },
            Err(e) => Err(e),
        }
    }

    pub fn set_payer(&mut self, payer: Payer)
        requires
            old(self).wf(),
        ensures
            final(self).wf(),
            final(self)@ == with_payer(old(self)@, payer),
    {
        self.payer = payer;
    }

    /// Discards the draft without submitting it.
    pub fn clear(&mut self)
        ensures
            final(self).wf(),
            final(self)@ == empty_draft(),
    {
        self.bill = None;
        self.paid_by_user = Money::zero();
        self.payer = Payer::User;
    }

    /// The friend's share: the bill less the user's expense.
    pub fn friend_share(&self) -> (r: Option<Money>)
        requires
            self.wf(),
        ensures
            r is None <==> friend_share_of(self@) is None,
            r matches Some(x) ==> friend_share_of(self@) == Some(x@),
    {
        match self.bill {
            Some(b) => b.checked_sub(&self.paid_by_user),
            None => None,
        }
    }

    /// What submitting adds to the friend's balance.
    pub fn delta(&self) -> (r: Result<Money, LedgerError>)
        requires
            self.wf(),
        ensures
            r is Err <==> delta_of(self@) is None,
            r matches Err(e) ==> e == LedgerError::NoBillEntered,
            r matches Ok(x) ==> delta_of(self@) == Some(x@),
    {
        if self.bill.is_none() {
            return Err(LedgerError::NoBillEntered);
        }
        match self.payer {
            Payer::User => Ok(self.friend_share().unwrap()),
            Payer::Friend => Ok(self.paid_by_user.checked_neg().unwrap()),
        }
    }

    /// Applies the split to the friend's balance and, on success, discards the
    /// draft. Hands back the friend's id and the delta applied.
    pub fn submit(&mut self, friend_id: u128, registry: &mut FriendRegistry) -> (r: Result<
        (u128, Money),
        LedgerError,
    >)
        requires
            old(self).wf(),
            old(registry).wf(),
        ensures
            final(self).wf(),
            final(registry).wf(),
            delta_of(old(self)@) is None ==> r == Err::<(u128, Money), LedgerError>(
                LedgerError::NoBillEntered,
            ),
            r is Err ==> final(self)@ == old(self)@ && final(registry)@ == old(registry)@,
            delta_of(old(self)@) matches Some(d) ==> {
                &&& r is Ok <==> delta_result(old(registry)@, friend_id, d) is Ok
                &&& r matches Err(e) ==> delta_result(old(registry)@, friend_id, d) == Err::<
                    (),
                    LedgerError,
                >(e)
                &&& r matches Ok((id, x)) ==> id == friend_id && x@ == d
                &&& r is Ok ==> balance_added(
                    old(registry)@,
                    final(registry)@,
                    index_of(old(registry)@, friend_id),
                    d,
                )
                &&& r is Ok ==> final(self)@ == empty_draft()
            },
    {
        let delta = match self.delta() {
            Ok(x) => x,
            Err(e) => {
                return Err(e);
            },
        };
        match registry.apply_delta(friend_id, delta) {
            Ok(()) => {
                self.clear();
                Ok((friend_id, delta))
            },
            Err(e) => Err(e),
        }
    }
}

/// A cleared draft holds no bill, so it yields no delta: submitting it fails
/// with `NoBillEntered` and changes no balance.
pub proof fn lemma_clear_then_submit_fails()
    ensures
        delta_of(empty_draft()) is None,
{
}

/// After a bill `b` is entered, an offered expense `x` leaves the expense at
/// most `b` whenever `x` or the expense before does not exceed `b`; an `x`
/// above `b` is rejected silently, leaving the draft as it was.
pub proof fn lemma_paid_never_exceeds_bill(d: DraftView, b: int, x: int)
    requires
        x <= b || d.paid_by_user <= b,
    ensures
        paid_after(with_bill(d, b), x).paid_by_user <= b,
        x > b ==> paid_after(with_bill(d, b), x) == with_bill(d, b),
{
}

} // verus!
