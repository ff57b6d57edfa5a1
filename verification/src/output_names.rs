//! The names of our virtual outputs: `pf-1`, `pf-2` and so on.
//!
//! A compositor's configuration pins touch input to an output by its name, so a name must not
//! change from session to session: an output gets the lowest number that is free. Free is a number
//! whose name no output has, ours or not, and that no other session is about to use. Two sessions
//! at a time never get the same one, which niri would refuse.

use vstd::prelude::*;
use vstd::string::*;

use crate::text::{
    begins_with, concat2, decimal, decimal_digits, decimal_value, law_decimal_is_plain,
    law_decimal_stands_for_its_number, texts,
};

verus! {

/// Is `name` of our kind? niri's own names are `HEADLESS-N`, and a user's are what the user chose.
pub open spec fn managed_name(name: Seq<char>) -> bool {
    "pf-"@.is_prefix_of(name)
}

/// Could `name` be a virtual output that a host of ours created?
pub fn is_managed_output(name: &str) -> (r: bool)
    ensures
        r == managed_name(name@),
{
    begins_with(name, "pf-")
}

/// The name with number `n`.
pub open spec fn numbered(n: nat) -> Seq<char> {
    "pf-"@ + decimal_digits(n)
}

/// The name with number `n`.
pub fn output_name(n: u64) -> (r: String)
    ensures
        r@ == numbered(n as nat),
{
    concat2("pf-", decimal(n).as_str())
}

/// The numbers that sessions hold: of an output that is about to be created, or exists under that
/// number's name.
pub struct OutputNames {
    held: Vec<u64>,
}

impl View for OutputNames {
    type V = Set<u64>;

    closed spec fn view(&self) -> Set<u64> {
        self.held@.to_set()
    }
}

/// Is number `n` taken: held by a session, or in the name of one of the `existing` outputs?
pub open spec fn taken(held: Set<u64>, existing: Seq<Seq<char>>, n: u64) -> bool {
    held.contains(n) || existing.contains(numbered(n as nat))
}

/// The lowest number, from one on, that is not taken.
pub open spec fn lowest_free(held: Set<u64>, existing: Seq<Seq<char>>, n: u64) -> bool {
    &&& 1 <= n
    &&& !taken(held, existing, n)
    &&& forall|m: u64| 1 <= m < n ==> #[trigger] taken(held, existing, m)
}

impl OutputNames {
    #[verifier::type_invariant]
    spec fn each_once(self) -> bool {
        self.held@.no_duplicates()
    }

    /// No number is held.
    pub fn new() -> (r: OutputNames)
        ensures
            r@ == Set::<u64>::empty(),
    {
        let r = OutputNames { held: Vec::new() };
        assert(r@ == Set::<u64>::empty());
        r
    }

    fn holds(&self, n: u64) -> (r: bool)
        ensures
            r == self@.contains(n),
    {
        let mut i: usize = 0;
        while i < self.held.len()
            invariant
                i <= self.held@.len(),
                forall|j: int| 0 <= j < i ==> self.held@[j] != n,
            decreases self.held@.len() - i,
        {
            if self.held[i] == n {
                assert(self.held@.contains(n));
                return true;
            }
            i += 1;
        }
        false
    }

    fn is_taken(&self, existing: &Vec<String>, n: u64) -> (r: bool)
        ensures
            r == taken(self@, texts(existing@), n),
    {
        if self.holds(n) {
            return true;
        }
        let name = output_name(n);
        let ghost names = texts(existing@);
        let mut i: usize = 0;
        while i < existing.len()
            invariant
                i <= existing@.len(),
                names == texts(existing@),
                name@ == numbered(n as nat),
                !self@.contains(n),
                forall|j: int| 0 <= j < i ==> names[j] != name@,
            decreases existing@.len() - i,
        {
            assert(names[i as int] == existing@[i as int]@);
            if existing[i] == name {
                assert(names.contains(name@));
                return true;
            }
            i += 1;
        }
        false
    }

    /// Take the lowest number that is free beside the `existing` outputs. `None` where every number
    /// is taken.
    pub fn take(&mut self, existing: &Vec<String>) -> (r: Option<u64>)
        ensures
            match r {
                Some(n) => lowest_free(old(self)@, texts(existing@), n) && final(self)@ == old(
                    self,
                )@.insert(n),
                None => (forall|m: u64| 1 <= m ==> #[trigger] taken(old(self)@, texts(existing@), m))
                    && final(self)@ == old(self)@,
            },
    {
        let mut n: u64 = 1;
        while self.is_taken(existing, n)
            invariant
                self@ == old(self)@,
                1 <= n,
                forall|m: u64| 1 <= m < n ==> #[trigger] taken(self@, texts(existing@), m),
            decreases u64::MAX - n,
        {
            if n == u64::MAX {
                return None;
            }
            n += 1;
        }
        proof {
            use_type_invariant(&*self);
        }
        let mut held: Vec<u64> = Vec::new();
        std::mem::swap(&mut held, &mut self.held);
        let ghost before = held@;
        held.push(n);
        proof {
            assert(held@.to_set() == before.to_set().insert(n)) by {
                assert forall|m: u64| held@.contains(m) <==> before.contains(m) || m == n by {
                    if before.contains(m) {
                        let j = choose|j: int| 0 <= j < before.len() && before[j] == m;
                        assert(held@[j] == m);
                    }
                    assert(held@[before.len() as int] == n);
                }
            }
        }
        self.held = held;
        Some(n)
    }

    /// Give number `n` back.
    pub fn release(&mut self, n: u64)
        ensures
            final(self)@ == old(self)@.remove(n),
    {
        proof {
            use_type_invariant(&*self);
        }
        let mut held: Vec<u64> = Vec::new();
        std::mem::swap(&mut held, &mut self.held);
        let ghost before = held@;
        let mut i: usize = 0;
        while i < held.len()
            invariant_except_break
                i <= held@.len(),
                held@ == before,
                before.no_duplicates(),
                forall|j: int| 0 <= j < i ==> before[j] != n,
            ensures
                held@.no_duplicates(),
                forall|m: u64| held@.contains(m) <==> before.contains(m) && m != n,
            decreases held@.len() - i,
        {
            if held[i] == n {
                held.remove(i);
                proof {
                    assert forall|m: u64| held@.contains(m) <==> before.contains(m) && m != n by {
                        if before.contains(m) && m != n {
                            let j = choose|j: int| 0 <= j < before.len() && before[j] == m;
                            assert(held@[if j < i {
                                j
                            } else {
                                j - 1
                            }] == m);
                        }
                        if held@.contains(m) {
                            let j = choose|j: int| 0 <= j < held@.len() && held@[j] == m;
                            assert(before[if j < i {
                                j
                            } else {
                                j + 1
                            }] == m);
                        }
                    }
                }
                break;
            }
            i += 1;
        }
        assert(held@.to_set() == before.to_set().remove(n));
        self.held = held;
    }
}

/// Every numbered name counts as ours, and no two numbers share a name.
pub proof fn law_names_are_ours_and_distinct(n: nat, m: nat)
    ensures
        managed_name(numbered(n)),
        numbered(n) == numbered(m) ==> n == m,
{
    assert("pf-"@ == numbered(n).subrange(0, "pf-"@.len() as int));
    law_decimal_stands_for_its_number(n);
    law_decimal_stands_for_its_number(m);
    if numbered(n) == numbered(m) {
        let len = "pf-"@.len() as int;
        assert(decimal_digits(n) == numbered(n).skip(len));
        assert(decimal_digits(m) == numbered(m).skip(len));
    }
}

/// A new output is asked for under a name that no output has and that no other session uses.
pub proof fn law_names_do_not_collide(
    held: Set<u64>,
    existing: Seq<Seq<char>>,
    n: u64,
    name: Seq<char>,
)
    requires
        lowest_free(held, existing, n),
        existing.contains(name) || exists|m: u64|
            #[trigger] held.contains(m) && name == numbered(m as nat),
    ensures
        numbered(n as nat) != name,
{
    if !existing.contains(name) {
        let m = choose|m: u64| #[trigger] held.contains(m) && name == numbered(m as nat);
        law_names_are_ours_and_distinct(n as nat, m as nat);
    }
}

/// Where every session that holds a number has its output, the name is the lowest of our names
/// that no output has.
pub proof fn law_name_is_the_lowest_that_no_output_has(
    held: Set<u64>,
    existing: Seq<Seq<char>>,
    n: u64,
)
    requires
        lowest_free(held, existing, n),
        forall|m: u64| #[trigger] held.contains(m) ==> existing.contains(numbered(m as nat)),
    ensures
        1 <= n,
        !existing.contains(numbered(n as nat)),
        forall|m: u64| 1 <= m < n ==> existing.contains(#[trigger] numbered(m as nat)),
{
    assert forall|m: u64| 1 <= m < n implies existing.contains(#[trigger] numbered(m as nat)) by {
        assert(taken(held, existing, m));
    }
}

/// Names are stable: an output that comes after one that went, or after one that never came to be,
/// with the same others around, gets the name that was asked for then.
pub proof fn law_names_come_back(held: Set<u64>, existing: Seq<Seq<char>>, n: u64, m: u64)
    requires
        lowest_free(held, existing, n),
        lowest_free(held.insert(n).remove(n), existing, m),
    ensures
        m == n,
{
    assert(held.insert(n).remove(n) == held);
    if m < n {
        assert(taken(held, existing, m));
    }
    if n < m {
        assert(taken(held, existing, n));
    }
}

/// A name is `pf-` and its number as a person writes it.
pub proof fn law_names_are_written_plainly(n: nat)
    ensures
        numbered(n).len() > 3,
        numbered(n).take(3) == seq!['p', 'f', '-'],
        decimal_value(numbered(n).skip(3)) == n,
        forall|i: int| 3 <= i < numbered(n).len() ==> '0' <= #[trigger] numbered(n)[i] <= '9',
        n > 0 ==> numbered(n)[3] != '0',
{
    reveal_strlit("pf-");
    law_decimal_stands_for_its_number(n);
    law_decimal_is_plain(n);
    let digits = decimal_digits(n);
    assert(numbered(n).take(3) == seq!['p', 'f', '-']);
    assert(numbered(n).skip(3) == digits);
    assert forall|i: int| 3 <= i < numbered(n).len() implies '0' <= #[trigger] numbered(n)[i]
        <= '9' by {
        assert(numbered(n)[i] == digits[i - 3]);
    }
    assert(numbered(n)[3] == digits[0]);
}

/// A name is of our kind exactly where it begins with `pf-`.
pub proof fn law_our_kind_begins_with_pf(name: Seq<char>)
    ensures
        managed_name(name) <==> name.len() >= 3 && name[0] == 'p' && name[1] == 'f' && name[2]
            == '-',
{
    reveal_strlit("pf-");
    if name.len() >= 3 && name[0] == 'p' && name[1] == 'f' && name[2] == '-' {
        assert("pf-"@ == name.subrange(0, 3));
    }
    if managed_name(name) {
        assert("pf-"@ == name.subrange(0, 3));
        assert(name.subrange(0, 3)[0] == name[0]);
        assert(name.subrange(0, 3)[1] == name[1]);
        assert(name.subrange(0, 3)[2] == name[2]);
    }
}

/// A number that is handed out is positive and neither held nor in the name of an output; every
/// lower one is one or the other.
pub proof fn law_no_lower_number_was_free(held: Set<u64>, existing: Seq<Seq<char>>, n: u64, m: u64)
    requires
        lowest_free(held, existing, n),
    ensures
        n > 0,
        !held.contains(n),
        !existing.contains("pf-"@ + decimal_digits(n as nat)),
        0 < m < n ==> held.contains(m) || existing.contains("pf-"@ + decimal_digits(m as nat)),
{
    if 0 < m < n {
        assert(taken(held, existing, m));
    }
}

} // verus!
