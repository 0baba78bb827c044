//! The reporter: renders a feature set as an ordered list of canonical
//! feature names, one per identifier, in ascending identifier order.
//!
//! Mapping an identifier back to its canonical name is a total,
//! bounds-checked lookup: an id outside the known enumeration is reported as
//! `unknown feature #<id>` rather than causing undefined behavior.

use vstd::prelude::*;
use vstd::string::StringExecFns;
use crate::FeatureId;
use crate::FEATURE_SLOTS;
use crate::features::FeatureSet;

verus! {

/// The canonical name of a feature id, or `None` for an id outside the known
/// enumeration. A pure function of the id alone.
pub uninterp spec fn feature_name_of(id: FeatureId) -> Option<Seq<char>>;

/// Relies on `iced_x86::CpuidFeature`: `TryFrom<usize>` accepts exactly the
/// ids of the closed enumeration, and the `Debug` impl prints the canonical
/// name from a fixed table. Both are pure functions of the id alone.
#[verifier::external_body]
fn feature_name(id: FeatureId) -> (r: Option<String>)
    ensures
        r.deep_view() == feature_name_of(id),
{
    iced_x86::CpuidFeature::try_from(id as usize).ok().map(|f| format!("{:?}", f))
}

/// The decimal digit character for `d`.
pub open spec fn digit_char(d: nat) -> char {
    if d == 0 {
        '0'
    } else if d == 1 {
        '1'
    } else if d == 2 {
        '2'
    } else if d == 3 {
        '3'
    } else if d == 4 {
        '4'
    } else if d == 5 {
        '5'
    } else if d == 6 {
        '6'
    } else if d == 7 {
        '7'
    } else if d == 8 {
        '8'
    } else {
        '9'
    }
}

/// The decimal rendering of `n`, most significant digit first.
pub open spec fn dec_str(n: nat) -> Seq<char>
    decreases n,
{
    if n < 10 {
        seq![digit_char(n)]
    } else {
        dec_str(n / 10).push(digit_char(n % 10))
    }
}

/// The report line for an id outside the known enumeration.
pub open spec fn unknown_label(id: FeatureId) -> Seq<char> {
    "unknown feature #"@ + dec_str(id as nat)
}

/// The report line for one feature id.
pub open spec fn line_for(id: FeatureId) -> Seq<char> {
    match feature_name_of(id) {
        Option::Some(name) => name,
        Option::None => unknown_label(id),
    }
}

/// The report lines for the members of `s` below slot `i`, ascending.
pub open spec fn render_upto(s: Set<FeatureId>, i: nat) -> Seq<Seq<char>>
    decreases i,
{
    if i == 0 {
        Seq::empty()
    } else {
        render_upto(s, (i - 1) as nat) + (if s.contains(((i - 1) as usize) as FeatureId) {
            seq![line_for(((i - 1) as usize) as FeatureId)]
        } else {
            Seq::<Seq<char>>::empty()
        })
    }
}

/// The full report for a feature set: one line per member, in ascending
/// identifier order, so output is stable and reproducible.
pub open spec fn render_spec(s: Set<FeatureId>) -> Seq<Seq<char>> {
    render_upto(s, FEATURE_SLOTS as nat)
}

fn digit_str(d: u16) -> (r: &'static str)
    requires
        d < 10,
    ensures
        r@ == seq![digit_char(d as nat)],
{
    if d == 0 {
        proof {
            reveal_strlit("0");
            assert("0"@ =~= seq![digit_char(0)]);
        }
        "0"
    } else if d == 1 {
        proof {
            reveal_strlit("1");
            assert("1"@ =~= seq![digit_char(1)]);
        }
        "1"
    } else if d == 2 {
        proof {
            reveal_strlit("2");
            assert("2"@ =~= seq![digit_char(2)]);
        }
        "2"
    } else if d == 3 {
        proof {
            reveal_strlit("3");
            assert("3"@ =~= seq![digit_char(3)]);
        }
        "3"
    } else if d == 4 {
        proof {
            reveal_strlit("4");
            assert("4"@ =~= seq![digit_char(4)]);
        }
        "4"
    } else if d == 5 {
        proof {
            reveal_strlit("5");
            assert("5"@ =~= seq![digit_char(5)]);
        }
        "5"
    } else if d == 6 {
        proof {
            reveal_strlit("6");
            assert("6"@ =~= seq![digit_char(6)]);
        }
        "6"
    } else if d == 7 {
        proof {
            reveal_strlit("7");
            assert("7"@ =~= seq![digit_char(7)]);
        }
        "7"
    } else if d == 8 {
        proof {
            reveal_strlit("8");
            assert("8"@ =~= seq![digit_char(8)]);
        }
        "8"
    } else {
        proof {
            reveal_strlit("9");
            assert("9"@ =~= seq![digit_char(9)]);
        }
        "9"
    }
}

/// Appends the decimal rendering of `n` to `s`.
fn push_dec(s: &mut String, n: u16)
    ensures
        final(s)@ == old(s)@ + dec_str(n as nat),
    decreases n,
{
    if n >= 10 {
        push_dec(s, n / 10);
        let d = digit_str(n % 10);
        s.append(d);
        proof {
            assert((n / 10) as nat == n as nat / 10);
            assert((n % 10) as nat == n as nat % 10);
            assert(s@ =~= old(s)@ + dec_str(n as nat));
        }
    } else {
        let d = digit_str(n);
        s.append(d);
        proof {
            assert(s@ =~= old(s)@ + dec_str(n as nat));
        }
    }
}

/// The executable report line for one feature id.
fn feature_line(id: FeatureId) -> (r: String)
    ensures
        r@ == line_for(id),
{
    match feature_name(id) {
        Option::Some(name) => {
            proof {
                assert(name.deep_view() == name@);
            }
            name
        },
        Option::None => {
            let mut s = String::from_str("unknown feature #");
            push_dec(&mut s, id);
            s
        },
    }
}

/// Renders the final feature set as human-readable output: one canonical
/// feature name per line, in ascending identifier order.
pub fn render(fs: &FeatureSet) -> (names: Vec<String>)
    requires
        fs.wf(),
    ensures
        names.deep_view() == render_spec(fs@),
{
    let mut names: Vec<String> = Vec::new();
    let mut i: usize = 0;
    while i < FEATURE_SLOTS
        invariant
            fs.wf(),
            i <= FEATURE_SLOTS,
            names.deep_view() == render_upto(fs@, i as nat),
        decreases FEATURE_SLOTS - i,
    {
        let ghost pre = names.deep_view();
        if fs.contains(i as u16) {
            let line = feature_line(i as u16);
            let ghost lv = line@;
            names.push(line);
            proof {
                assert(names.deep_view() =~= pre.push(lv));
                assert(pre.push(lv) =~= pre + seq![lv]);
            }
        }
        proof {
            assert(names.deep_view() =~= render_upto(fs@, (i + 1) as nat));
        }
        i += 1;
    }
    names
}

/// No feature observed means an empty report: a scan that recognized
/// nothing renders no lines at all.
pub proof fn lemma_render_empty(i: nat)
    ensures
        render_upto(Set::<FeatureId>::empty(), i) == Seq::<Seq<char>>::empty(),
    decreases i,
{
    if i > 0 {
        lemma_render_empty((i - 1) as nat);
        assert(render_upto(Set::<FeatureId>::empty(), i) =~= Seq::<Seq<char>>::empty());
    }
}

} // verus!
