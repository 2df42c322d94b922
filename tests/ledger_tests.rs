use eat_n_split::error::LedgerError;
use eat_n_split::friend::{Friend, Standing};
use eat_n_split::ledger::Ledger;
use eat_n_split::money::{Money, ParseError};
use eat_n_split::registry::FriendRegistry;
use eat_n_split::selection::SelectionState;
use eat_n_split::add_form::AddFriendForm;
use eat_n_split::split::{BillSplitDraft, Payer};
use std::cmp::Ordering;

const UNIT: i128 = 1_000_000_000_000_000_000;

fn whole(n: i128) -> Money {
    Money::from_units(n * UNIT)
}

fn friend(id: u128, name: &str, balance: i128) -> Friend {
    Friend::new(id, name.to_owned(), format!("avatar/{name}.jpg")).balance(whole(balance))
}

fn ledger_with_selected(id: u128, balance: i128) -> Ledger {
    let mut ledger = Ledger::new();
    ledger.add_friend(friend(id, "Clark", balance)).unwrap();
    ledger.select_friend(id).unwrap();
    ledger
}

fn balance_of(ledger: &Ledger, id: u128) -> i128 {
    ledger.friends().iter().find(|f| f.id == id).unwrap().balance.units()
}

#[test]
fn parse_integer_and_fraction() {
    assert_eq!(Money::parse("100").unwrap().units(), 100 * UNIT);
    assert_eq!(Money::parse("1.5").unwrap().units(), 15 * UNIT / 10);
    assert_eq!(Money::parse("-7").unwrap().units(), -7 * UNIT);
    assert_eq!(Money::parse("2e3").unwrap().units(), 2000 * UNIT);
    assert_eq!(Money::parse("0.000000000000000001").unwrap().units(), 1);
}

#[test]
fn parse_malformed_text() {
    assert_eq!(Money::parse("abc"), Err(ParseError::Malformed));
    assert_eq!(Money::parse(""), Err(ParseError::Malformed));
    assert_eq!(Money::parse("1.2.3"), Err(ParseError::Malformed));
}

#[test]
fn parse_out_of_range() {
    assert_eq!(Money::parse("0.0000000000000000001"), Err(ParseError::OutOfRange));
    assert_eq!(Money::parse("1000000000000000000"), Err(ParseError::OutOfRange));
    assert_eq!(Money::parse("999999999999999999").unwrap().units(), 999_999_999_999_999_999 * UNIT);
    assert_eq!(Money::parse("1e400"), Err(ParseError::OutOfRange));
}

#[test]
fn from_parts_scales_exactly() {
    assert_eq!(Money::from_parts(15, 1).unwrap().units(), 15 * UNIT / 10);
    assert_eq!(Money::from_parts(7, -2).unwrap().units(), 700 * UNIT);
    assert_eq!(Money::from_parts(-1_000, 21).unwrap().units(), -1);
    assert_eq!(Money::from_parts(1_001, 21), Err(ParseError::OutOfRange));
    assert_eq!(Money::from_parts(0, -5000).unwrap().units(), 0);
    assert_eq!(Money::from_parts(1, -40), Err(ParseError::OutOfRange));
}

#[test]
fn money_arithmetic() {
    let a = whole(-7);
    let b = whole(60);
    assert_eq!(a.checked_add(&b).unwrap().units(), 53 * UNIT);
    assert_eq!(a.checked_sub(&b).unwrap().units(), -67 * UNIT);
    assert_eq!(a.checked_neg().unwrap().units(), 7 * UNIT);
    assert_eq!(a.checked_abs().unwrap().units(), 7 * UNIT);
    assert!(Money::zero().is_zero());
    assert!(!a.is_zero());
    assert_eq!(a.compare(&b), Ordering::Less);
    assert_eq!(b.compare(&a), Ordering::Greater);
    assert_eq!(b.compare(&whole(60)), Ordering::Equal);
    assert!(a.le(&b));
    assert!(Money::from_units(i128::MAX).checked_add(&Money::from_units(1)).is_none());
    assert!(Money::from_units(i128::MIN).checked_neg().is_none());
}

#[test]
fn friend_builders() {
    let f = Friend::default().name("Sarah").image("avatar/Sarah.jpg").balance(whole(20));
    assert_eq!(f.name, "Sarah");
    assert_eq!(f.image, "avatar/Sarah.jpg");
    assert_eq!(f.balance.units(), 20 * UNIT);
    let g = Friend::default();
    assert_eq!(g.name, "");
    assert!(g.balance.is_zero());
    assert_ne!(f.id, g.id);
}

#[test]
fn registry_add_find_remove() {
    let mut r = FriendRegistry::new();
    assert_eq!(r.add(friend(1, "Clark", -7)), Ok(()));
    assert_eq!(r.add(friend(2, "Sarah", 20)), Ok(()));
    assert_eq!(r.add(friend(1, "Anthony", 0)), Err(LedgerError::DuplicateId));
    assert_eq!(r.len(), 2);
    assert_eq!(r.find(2).unwrap().name, "Sarah");
    assert!(r.find(3).is_none());
    r.remove(3);
    assert_eq!(r.len(), 2);
    r.remove(1);
    assert_eq!(r.len(), 1);
    assert_eq!(r.list()[0].id, 2);
}

#[test]
fn registry_apply_delta() {
    let mut r = FriendRegistry::new();
    r.add(friend(1, "Clark", -7)).unwrap();
    assert_eq!(r.apply_delta(1, whole(60)), Ok(()));
    assert_eq!(r.find(1).unwrap().balance.units(), 53 * UNIT);
    assert_eq!(r.apply_delta(9, whole(1)), Err(LedgerError::NotFound));
    r.add(Friend::new(2, "Max".to_owned(), "m.jpg".to_owned()).balance(Money::from_units(i128::MAX))).unwrap();
    assert_eq!(r.apply_delta(2, Money::from_units(1)), Err(LedgerError::BalanceOverflow));
    assert_eq!(r.find(2).unwrap().balance.units(), i128::MAX);
}

#[test]
fn selection_toggle_and_select() {
    let mut s = SelectionState::new();
    s.toggle_add_friend();
    assert!(s.add_form_open);
    s.select(4);
    assert_eq!(s.selected, Some(4));
    assert!(!s.add_form_open);
    s.select(4);
    assert_eq!(s.selected, None);
    s.select(4);
    s.select(5);
    assert_eq!(s.selected, Some(5));
    s.clear_selection();
    assert_eq!(s.selected, None);
}

#[test]
fn add_form_ignores_blank_input() {
    let mut form = AddFriendForm::new();
    form.set_name("   ");
    assert_eq!(form.name, None);
    form.set_name("Clark");
    form.set_name("\t \n");
    assert_eq!(form.name.as_deref(), Some("Clark"));
    assert_eq!(form.submit_with_id(1).unwrap_err(), LedgerError::IncompleteForm);
    form.set_image(" avatar/Clark.jpg ");
    let f = form.submit_with_id(1).unwrap();
    assert_eq!(f.id, 1);
    assert_eq!(f.name, "Clark");
    assert_eq!(f.image, " avatar/Clark.jpg ");
    assert!(f.balance.is_zero());
    assert_eq!(form.name, None);
    assert_eq!(form.image, None);
}

#[test]
fn add_friends_through_the_form() {
    let mut ledger = Ledger::new();
    let pairs = [("Clark", "c.jpg"), ("Sarah", "s.jpg"), ("Anthony", "a.jpg")];
    for (name, image) in pairs {
        ledger.set_friend_name_field(name);
        ledger.set_friend_image_field(image);
        ledger.submit_add_friend().unwrap();
    }
    let friends = ledger.friends();
    assert_eq!(friends.len(), 3);
    for f in friends.iter() {
        assert!(f.balance.is_zero());
    }
    assert!(friends[0].id != friends[1].id && friends[1].id != friends[2].id && friends[0].id != friends[2].id);
    assert_eq!(friends[2].name, "Anthony");
    assert_eq!(ledger.submit_add_friend(), Err(LedgerError::IncompleteForm));
}

#[test]
fn submit_add_friend_with_taken_id() {
    let mut ledger = Ledger::new();
    ledger.add_friend(friend(1, "Clark", 0)).unwrap();
    ledger.set_friend_name_field("Sarah");
    ledger.set_friend_image_field("s.jpg");
    assert_eq!(ledger.submit_add_friend_with_id(1), Err(LedgerError::DuplicateId));
    assert_eq!(ledger.add_form().name.as_deref(), Some("Sarah"));
    assert_eq!(ledger.submit_add_friend_with_id(2), Ok(2));
    assert_eq!(ledger.friends().len(), 2);
}

#[test]
fn removing_selected_friend_clears_selection() {
    let mut ledger = ledger_with_selected(1, 0);
    ledger.set_bill_field("100").unwrap();
    ledger.remove_friend(1);
    assert_eq!(ledger.selection().selected, None);
    assert!(ledger.draft().bill().is_none());
    assert!(ledger.friends().is_empty());
}

#[test]
fn removing_other_friend_keeps_selection() {
    let mut ledger = ledger_with_selected(1, 0);
    ledger.add_friend(friend(2, "Sarah", 20)).unwrap();
    ledger.remove_friend(2);
    ledger.remove_friend(2);
    assert_eq!(ledger.selection().selected, Some(1));
}

#[test]
fn reselecting_deselects() {
    let mut ledger = ledger_with_selected(1, 0);
    ledger.select_friend(1).unwrap();
    assert_eq!(ledger.selection().selected, None);
    assert_eq!(ledger.select_friend(8), Err(LedgerError::NotFound));
}

#[test]
fn selecting_closes_add_form_and_switching_discards_draft() {
    let mut ledger = ledger_with_selected(1, 0);
    ledger.add_friend(friend(2, "Sarah", 20)).unwrap();
    ledger.set_bill_field("50").unwrap();
    ledger.toggle_add_friend_form();
    assert!(ledger.selection().add_form_open);
    ledger.select_friend(2).unwrap();
    assert!(!ledger.selection().add_form_open);
    assert_eq!(ledger.selection().selected, Some(2));
    assert!(ledger.draft().bill().is_none());
}

#[test]
fn paid_by_user_capped_by_bill() {
    let mut d = BillSplitDraft::new();
    d.set_paid_by_user("10").unwrap();
    assert!(d.paid_by_user().is_zero());
    d.set_bill("100").unwrap();
    d.set_paid_by_user("40").unwrap();
    assert_eq!(d.paid_by_user().units(), 40 * UNIT);
    d.set_paid_by_user("150").unwrap();
    assert_eq!(d.paid_by_user().units(), 40 * UNIT);
    d.set_paid_by_user("100").unwrap();
    assert_eq!(d.paid_by_user().units(), 100 * UNIT);
    assert_eq!(d.set_paid_by_user("x"), Err(ParseError::Malformed));
    assert_eq!(d.paid_by_user().units(), 100 * UNIT);
}

#[test]
fn friend_share_is_bill_less_expense() {
    let mut d = BillSplitDraft::new();
    assert!(d.friend_share().is_none());
    d.set_bill("100").unwrap();
    d.offer_paid_by_user(whole(40));
    assert_eq!(d.friend_share().unwrap().units(), 60 * UNIT);
}

#[test]
fn split_user_pays() {
    let mut ledger = ledger_with_selected(1, 0);
    ledger.set_bill_field("100").unwrap();
    ledger.set_paid_by_user_field("40").unwrap();
    ledger.set_payer(Payer::User);
    assert_eq!(ledger.draft().friend_share().unwrap().units(), 60 * UNIT);
    let (id, delta) = ledger.submit_split().unwrap();
    assert_eq!(id, 1);
    assert_eq!(delta.units(), 60 * UNIT);
    assert_eq!(balance_of(&ledger, 1), 60 * UNIT);
    assert!(ledger.draft().bill().is_none());
}

#[test]
fn split_friend_pays() {
    let mut ledger = ledger_with_selected(1, 0);
    ledger.set_bill_field("100").unwrap();
    ledger.set_paid_by_user_field("40").unwrap();
    ledger.set_payer(Payer::Friend);
    let (_, delta) = ledger.submit_split().unwrap();
    assert_eq!(delta.units(), -40 * UNIT);
    assert_eq!(balance_of(&ledger, 1), -40 * UNIT);
}

#[test]
fn split_without_bill_fails() {
    let mut ledger = ledger_with_selected(1, 5);
    ledger.set_paid_by_user_field("40").unwrap();
    assert_eq!(ledger.submit_split(), Err(LedgerError::NoBillEntered));
    assert_eq!(balance_of(&ledger, 1), 5 * UNIT);
}

#[test]
fn split_moves_owed_balance_past_zero() {
    let mut ledger = ledger_with_selected(1, -7);
    ledger.set_bill_field("100").unwrap();
    ledger.set_paid_by_user_field("40").unwrap();
    ledger.submit_split().unwrap();
    assert_eq!(balance_of(&ledger, 1), 53 * UNIT);
    assert_eq!(ledger.friends()[0].balance.compare(&Money::zero()), Ordering::Greater);
}

#[test]
fn clear_then_submit_fails() {
    let mut ledger = ledger_with_selected(1, 0);
    ledger.set_bill_field("100").unwrap();
    ledger.set_payer(Payer::Friend);
    ledger.clear_split_draft();
    assert_eq!(ledger.draft().payer(), Payer::User);
    assert_eq!(ledger.submit_split(), Err(LedgerError::NoBillEntered));
    assert_eq!(ledger.selection().selected, Some(1));
    assert_eq!(balance_of(&ledger, 1), 0);
}

#[test]
fn set_bill_abc_keeps_prior_bill() {
    let mut d = BillSplitDraft::new();
    assert_eq!(d.set_bill("abc"), Err(ParseError::Malformed));
    assert!(d.bill().is_none());
    d.set_bill("12.5").unwrap();
    assert_eq!(d.set_bill("abc"), Err(ParseError::Malformed));
    assert_eq!(d.bill().unwrap().units(), 125 * UNIT / 10);
}

#[test]
fn split_overflow_keeps_balance() {
    let mut ledger = Ledger::new();
    ledger.add_friend(friend(1, "Clark", 0).balance(Money::from_units(i128::MAX))).unwrap();
    ledger.select_friend(1).unwrap();
    ledger.set_bill_field("1").unwrap();
    assert_eq!(ledger.submit_split(), Err(LedgerError::BalanceOverflow));
    assert_eq!(balance_of(&ledger, 1), i128::MAX);
    assert!(ledger.draft().bill().is_some());
}

#[test]
fn fields_without_selection_change_nothing() {
    let mut ledger = Ledger::new();
    assert_eq!(ledger.set_bill_field("abc"), Ok(()));
    assert_eq!(ledger.set_bill_field("10"), Ok(()));
    assert!(ledger.draft().bill().is_none());
    assert_eq!(ledger.submit_split(), Err(LedgerError::NoBillEntered));
}

#[test]
fn standing_reads_balance_sign() {
    assert_eq!(friend(1, "Clark", -7).standing(), Standing::YouOwe(7 * UNIT as u128));
    assert_eq!(friend(2, "Anthony", 0).standing(), Standing::Even);
    assert_eq!(friend(3, "Sarah", 20).standing(), Standing::OwesYou(20 * UNIT as u128));
    let min = Friend::new(4, "Min".to_owned(), "m.jpg".to_owned()).balance(Money::from_units(i128::MIN));
    assert_eq!(min.standing(), Standing::YouOwe(1u128 << 127));
}

#[test]
fn lowered_bill_keeps_larger_expense_until_a_valid_one() {
    let mut d = BillSplitDraft::new();
    d.set_bill("100").unwrap();
    d.set_paid_by_user("80").unwrap();
    d.set_bill("50").unwrap();
    d.set_paid_by_user("200").unwrap();
    assert_eq!(d.paid_by_user().units(), 80 * UNIT);
    d.set_paid_by_user("30").unwrap();
    assert_eq!(d.paid_by_user().units(), 30 * UNIT);
}

#[test]
fn first_add_from_complete_form_succeeds() {
    let mut ledger = Ledger::new();
    ledger.toggle_add_friend_form();
    ledger.set_friend_name_field("Clark");
    ledger.set_friend_image_field("c.jpg");
    let id = ledger.submit_add_friend().unwrap();
    assert_eq!(ledger.friends()[0].id, id);
    assert!(ledger.selection().add_form_open);
    assert_eq!(ledger.selection().selected, None);
}
