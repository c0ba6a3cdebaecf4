//! Clients of a shop: how each is described, and the list in order of name or age.

use vstd::prelude::*;
use vstd::string::StringExecFns;
use crate::text::{compare_text, lemma_text_cmp_flip, text_cmp};

verus! {

broadcast use vstd::seq_lib::group_to_multiset_ensures;

#[derive(Clone, Copy, Debug, PartialEq, PartialOrd, Eq, Ord, Structural)]
pub enum Gender {
    Male,
    Female,
}

pub open spec fn gender_label(g: Gender) -> Seq<char> {
    match g {
        Gender::Male => "male"@,
        Gender::Female => "female"@,
    }
}

impl Gender {
    /// The gender as it is written in a client line.
    pub fn label(&self) -> (r: &'static str)
        ensures
            r@ == gender_label(*self),
    {
        match self {
            Gender::Male => "male",
            Gender::Female => "female",
        }
    }
}

/// A client of the shop.
#[derive(Clone, Debug)]
pub struct Client {
    pub forename: String,
    pub surname: String,
    pub gender: Gender,
    pub age: u8,
}

pub open spec fn digit_char(d: nat) -> char {
    seq!['0', '1', '2', '3', '4', '5', '6', '7', '8', '9'][d as int]
}

/// The decimal digits of a number, without leading zeros.
pub open spec fn decimal_of(n: nat) -> Seq<char>
    decreases n,
{
    if n < 10 {
        seq![digit_char(n)]
    } else {
        decimal_of(n / 10).push(digit_char(n % 10))
    }
}

/// The line that describes a client: `forename surname, gender, age years old`.
pub open spec fn client_line(c: Client) -> Seq<char> {
    c.forename@ + " "@ + c.surname@ + ", "@ + gender_label(c.gender) + ", "@ + decimal_of(
        c.age as nat,
    ) + " years old"@
}

fn digit_text(d: u8) -> (r: &'static str)
    requires
        d < 10,
    ensures
        r@ == seq![digit_char(d as nat)],
{
    proof {
        reveal_strlit("0");
        reveal_strlit("1");
        reveal_strlit("2");
        reveal_strlit("3");
        reveal_strlit("4");
        reveal_strlit("5");
        reveal_strlit("6");
        reveal_strlit("7");
        reveal_strlit("8");
        reveal_strlit("9");
    }
    let r = match d {
        0 => "0",
        1 => "1",
        2 => "2",
        3 => "3",
        4 => "4",
        5 => "5",
        6 => "6",
        7 => "7",
        8 => "8",
        _ => "9",
    };
    assert(r@ =~= seq![digit_char(d as nat)]);
    r
}

/// The decimal form of a number.
pub fn decimal(n: u8) -> (r: String)
    ensures
        r@ == decimal_of(n as nat),
{
    let mut s = String::new();
    if n >= 100 {
        s.append(digit_text(n / 100));
    }
    if n >= 10 {
        s.append(digit_text((n / 10) % 10));
    }
    s.append(digit_text(n % 10));
    proof {
        let m = n as nat;
        if m >= 100 {
            assert(m / 10 / 10 == m / 100);
            assert(decimal_of(m / 10 / 10) == seq![digit_char(m / 100)]);
        }
        if m >= 10 {
            assert(decimal_of(m) == decimal_of(m / 10).push(digit_char(m % 10)));
        }
        assert(s@ =~= decimal_of(m));
    }
    s
}

/// Whether `a` may stand before `b` in a list ordered by age or, otherwise,
/// by forename and then surname.
pub open spec fn precedes(a: Client, b: Client, by_age: bool) -> bool {
    if by_age {
        a.age <= b.age
    } else {
        let f = text_cmp(a.forename@, b.forename@);
        f < 0 || (f == 0 && text_cmp(a.surname@, b.surname@) <= 0)
    }
}

/// Each client may stand before the next one.
pub open spec fn sorted_by(s: Seq<Client>, by_age: bool) -> bool {
    forall|i: int| 0 <= i < s.len() - 1 ==> #[trigger] precedes(s[i], s[i + 1], by_age)
}

proof fn lemma_precedes_total(a: Client, b: Client, by_age: bool)
    ensures
        precedes(a, b, by_age) || precedes(b, a, by_age),
{
    lemma_text_cmp_flip(a.forename@, b.forename@);
    lemma_text_cmp_flip(a.surname@, b.surname@);
}

fn precedes_exec(a: &Client, b: &Client, by_age: bool) -> (r: bool)
    ensures
        r == precedes(*a, *b, by_age),
{
    if by_age {
        a.age <= b.age
    } else {
        let f = compare_text(a.forename.as_str(), b.forename.as_str());
        f < 0 || (f == 0 && compare_text(a.surname.as_str(), b.surname.as_str()) <= 0)
    }
}

/// Insertion sort of the clients by the chosen order.
fn sort_clients(clients: &mut Vec<Client>, by_age: bool)
    ensures
        sorted_by(final(clients)@, by_age),
        final(clients)@.to_multiset() == old(clients)@.to_multiset(),
{
    let mut out: Vec<Client> = Vec::new();
    while clients.len() > 0
        invariant
            sorted_by(out@, by_age),
            old(clients)@.to_multiset() == clients@.to_multiset().add(out@.to_multiset()),
        decreases clients@.len(),
    {
        let ghost before = clients@;
        let c = clients.remove(0);
        assert(before.remove(0).to_multiset() == before.to_multiset().remove(c));
        let mut p: usize = out.len();
        while p > 0 && !precedes_exec(&out[p - 1], &c, by_age)
            invariant
                p <= out@.len(),
                forall|j: int| p <= j < out@.len() ==> !#[trigger] precedes(out@[j], c, by_age),
            decreases p,
        {
            p = p - 1;
        }
        let ghost prev = out@;
        proof {
            if p < prev.len() {
                lemma_precedes_total(prev[p as int], c, by_age);
            }
        }
        out.insert(p, c);
        assert(out@ == prev.insert(p as int, c));
        assert(sorted_by(out@, by_age)) by {
            assert forall|i: int| 0 <= i < out@.len() - 1 implies #[trigger] precedes(
                out@[i],
                out@[i + 1],
                by_age,
            ) by {
                if i + 1 < p {
                    assert(precedes(prev[i], prev[i + 1], by_age));
                } else if i > p {
                    let k = i - 1;
                    assert(precedes(prev[k], prev[k + 1], by_age));
                    assert(prev[k + 1] == prev[i]);
                }
            }
        }
    }
    *clients = out;
}

impl Client {
    pub fn new(forename: String, surname: String, gender: Gender, age: u8) -> (r: Client)
        ensures
            r.forename == forename,
            r.surname == surname,
            r.gender == gender,
            r.age == age,
    {
        Client { forename, surname, gender, age }
    }

    /// The line that describes the client, as `client_line` gives it.
    pub fn describe(&self) -> (r: String)
        ensures
            r@ == client_line(*self),
    {
        let mut s = self.forename.clone();
        s.append(" ");
        s.append(self.surname.as_str());
        s.append(", ");
        s.append(self.gender.label());
        s.append(", ");
        let age = decimal(self.age);
        s.append(age.as_str());
        s.append(" years old");
        s
    }
}

/// Puts the clients in order of forename and then surname.
pub fn sort_by_name(clients: &mut Vec<Client>)
    ensures
        sorted_by(final(clients)@, false),
        final(clients)@.to_multiset() == old(clients)@.to_multiset(),
{
    sort_clients(clients, false);
}

/// Puts the clients in order of age.
pub fn sort_by_age(clients: &mut Vec<Client>)
    ensures
        sorted_by(final(clients)@, true),
        final(clients)@.to_multiset() == old(clients)@.to_multiset(),
{
    sort_clients(clients, true);
}

pub open spec fn is_male(c: Client) -> bool {
    c.gender == Gender::Male
}

/// The male clients, in the order in which they stand.
pub fn males(clients: Vec<Client>) -> (r: Vec<Client>)
    ensures
        r@ == clients@.filter(|c: Client| is_male(c)),
{
    let ghost all = clients@;
    let mut rest = clients;
    let mut out: Vec<Client> = Vec::new();
    let ghost mut k: int = 0;
    while rest.len() > 0
        invariant
            0 <= k <= all.len(),
            rest@ == all.subrange(k, all.len() as int),
            out@ == all.subrange(0, k).filter(|c: Client| is_male(c)),
        decreases rest@.len(),
    {
        let c = rest.remove(0);
        proof {
            assert(all.subrange(0, k + 1) =~= all.subrange(0, k).push(c));
            all.subrange(0, k).lemma_filter_push(c, |c: Client| is_male(c));
            assert(rest@ =~= all.subrange(k + 1, all.len() as int));
            k = k + 1;
        }
        if c.gender == Gender::Male {
            out.push(c);
        }
    }
    assert(all.subrange(0, k) =~= all);
    out
}

} // verus!
