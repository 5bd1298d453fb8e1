//! Byte counts for people to read, and the fields of a report section.
use vstd::prelude::*;
use vstd::arithmetic::div_mod::{lemma_div_denominator, lemma_fundamental_div_mod};
use vstd::string::*;

use crate::text::{
    decimal_text, digits_value, is_digit, lemma_decimal_reads_back, lemma_separated_digits_read,
    parse_i64, parsed_i64, push_decimal, strip_commas, without_commas,
};

verus! {

/// How many bytes one unit of exponent `e` stands for: B, KB, MB, then GB.
pub open spec fn unit_scale(e: nat) -> nat {
    if e == 0 {
        1
    } else if e == 1 {
        1024
    } else if e == 2 {
        1048576
    } else {
        1073741824
    }
}

/// The name of the unit of exponent `e`.
pub open spec fn unit_name(e: nat) -> Seq<char> {
    if e == 0 {
        seq!['B']
    } else if e == 1 {
        seq!['K', 'B']
    } else if e == 2 {
        seq!['M', 'B']
    } else {
        seq!['G', 'B']
    }
}

/// The unit `(v, e)` when its value is nonzero, nothing otherwise.
pub open spec fn kept_unit(v: nat, e: nat) -> Seq<(nat, nat)> {
    if v == 0 {
        seq![]
    } else {
        seq![(v, e)]
    }
}

/// The nonzero units of `m` bytes as (value, exponent), largest first.
/// Gigabytes take whatever is above a gigabyte; each smaller unit holds
/// what is left below the next one.
pub open spec fn scaled_units(m: nat) -> Seq<(nat, nat)> {
    kept_unit(m / 1073741824, 3) + kept_unit(m / 1048576 % 1024, 2) + kept_unit(
        m / 1024 % 1024,
        1,
    ) + kept_unit(m % 1024, 0)
}

/// One unit as text, such as `512KB`.
pub open spec fn unit_token(u: (nat, nat)) -> Seq<char> {
    decimal_text(u.0) + unit_name(u.1)
}

/// The units' tokens, one space between two of them.
pub open spec fn render_units(us: Seq<(nat, nat)>) -> Seq<char>
    decreases us.len(),
{
    if us.len() == 0 {
        seq![]
    } else if us.len() == 1 {
        unit_token(us[0])
    } else {
        render_units(us.drop_last()) + seq![' '] + unit_token(us.last())
    }
}

/// The bytes that `size` counts, whatever its sign; `i64::MIN` counts as `i64::MAX`.
pub open spec fn magnitude(size: i64) -> nat {
    if size == i64::MIN {
        i64::MAX as nat
    } else if size < 0 {
        (-size) as nat
    } else {
        size as nat
    }
}

/// `-` for a negative count, nothing otherwise.
pub open spec fn sign_text(size: i64) -> Seq<char> {
    if size < 0 {
        seq!['-']
    } else {
        seq![]
    }
}

/// What `human_bytes` writes for `size`.
pub open spec fn human_bytes_text(size: i64) -> Seq<char> {
    if size == 0 {
        seq!['0', 'B']
    } else {
        sign_text(size) + render_units(scaled_units(magnitude(size)))
    }
}

/// The bytes that the units stand for together.
pub open spec fn units_total(us: Seq<(nat, nat)>) -> nat
    decreases us.len(),
{
    if us.len() == 0 {
        0
    } else {
        units_total(us.drop_last()) + us.last().0 * unit_scale(us.last().1)
    }
}

proof fn lemma_units_total_concat(a: Seq<(nat, nat)>, b: Seq<(nat, nat)>)
    ensures
        units_total(a + b) == units_total(a) + units_total(b),
    decreases b.len(),
{
    if b.len() == 0 {
        assert(a + b =~= a);
    } else {
        assert((a + b).drop_last() =~= a + b.drop_last());
        lemma_units_total_concat(a, b.drop_last());
    }
}

proof fn lemma_kept_unit_total(v: nat, e: nat)
    ensures
        units_total(kept_unit(v, e)) == v * unit_scale(e),
{
    let none = Seq::<(nat, nat)>::empty();
    assert(units_total(none) == 0);
    if v != 0 {
        assert(kept_unit(v, e).drop_last() =~= none);
        assert(kept_unit(v, e).last() == (v, e));
    } else {
        assert(kept_unit(v, e) =~= none);
    }
}

/// A count of bytes, rebuilt from its units.
proof fn lemma_units_add_up(m: nat)
    ensures
        units_total(scaled_units(m)) == m,
{
    let k3 = kept_unit(m / 1073741824, 3);
    let k2 = kept_unit(m / 1048576 % 1024, 2);
    let k1 = kept_unit(m / 1024 % 1024, 1);
    let k0 = kept_unit(m % 1024, 0);
    lemma_units_total_concat(k3 + k2 + k1, k0);
    lemma_units_total_concat(k3 + k2, k1);
    lemma_units_total_concat(k3, k2);
    lemma_kept_unit_total(m / 1073741824, 3);
    lemma_kept_unit_total(m / 1048576 % 1024, 2);
    lemma_kept_unit_total(m / 1024 % 1024, 1);
    lemma_kept_unit_total(m % 1024, 0);
    let q1 = m / 1024;
    let q2 = q1 / 1024;
    let q3 = q2 / 1024;
    lemma_fundamental_div_mod(m as int, 1024);
    lemma_fundamental_div_mod(q1 as int, 1024);
    lemma_fundamental_div_mod(q2 as int, 1024);
    lemma_div_denominator(m as int, 1024, 1024);
    lemma_div_denominator(m as int, 1048576, 1024);
    assert(q2 == m / 1048576);
    assert(q3 == m / 1073741824);
    let r0 = m % 1024;
    let r1 = q1 % 1024;
    let r2 = q2 % 1024;
    assert(m == q3 * 1073741824 + r2 * 1048576 + r1 * 1024 + r0) by (nonlinear_arith)
        requires
            m == 1024 * q1 + r0,
            q1 == 1024 * q2 + r1,
            q2 == 1024 * q3 + r2,
    ;
}

/// What `human_bytes` writes for a nonzero count is its sign and then its
/// units, largest first; no unit has the value zero, each unit's digits read
/// back as its value, and the values, each weighed by its unit, add up to the
/// count's absolute value again.
pub proof fn lemma_human_bytes_units(size: i64)
    requires
        size != 0,
        size != i64::MIN,
    ensures
        human_bytes_text(size) == sign_text(size) + render_units(scaled_units(magnitude(size))),
        forall|i: int|
            0 <= i < scaled_units(magnitude(size)).len() ==> #[trigger] scaled_units(
                magnitude(size),
            )[i].0 > 0,
        forall|i: int, j: int|
            0 <= i < j < scaled_units(magnitude(size)).len() ==> scaled_units(magnitude(size))[i].1
                > scaled_units(magnitude(size))[j].1,
        forall|i: int|
            0 <= i < scaled_units(magnitude(size)).len() ==> parsed_i64(
                decimal_text(#[trigger] scaled_units(magnitude(size))[i].0),
            ) == Some(scaled_units(magnitude(size))[i].0 as i64),
        units_total(scaled_units(magnitude(size))) == if size < 0 {
            -size
        } else {
            size as int
        },
{
    let m = magnitude(size);
    lemma_units_add_up(m);
    let us = scaled_units(m);
    assert forall|i: int| 0 <= i < us.len() implies #[trigger] us[i].0 > 0 && us[i].1 <= 3 by {
    }
    assert forall|i: int| 0 <= i < us.len() implies parsed_i64(decimal_text(#[trigger] us[i].0))
        == Some(us[i].0 as i64) by {
        lemma_decimal_reads_back(us[i].0);
    }
    assert forall|i: int, j: int| 0 <= i < j < us.len() implies us[i].1 > us[j].1 by {
    }
}

/// The name of the unit of exponent `e` as a string.
fn unit_str(e: u64) -> (r: &'static str)
    ensures
        r@ == unit_name(e as nat),
{
    proof {
        reveal_strlit("B");
        reveal_strlit("KB");
        reveal_strlit("MB");
        reveal_strlit("GB");
    }
    match e {
        0 => "B",
        1 => "KB",
        2 => "MB",
        _ => "GB",
    }
}

/// Appends the unit `(v, e)` to the units already written, when `v` is nonzero.
fn push_unit(
    out: &mut String,
    Ghost(prefix): Ghost<Seq<char>>,
    Ghost(us): Ghost<Seq<(nat, nat)>>,
    none_yet: bool,
    v: u64,
    e: u64,
)
    requires
        old(out)@ == prefix + render_units(us),
        none_yet == (us.len() == 0),
    ensures
        final(out)@ == prefix + render_units(us + kept_unit(v as nat, e as nat)),
{
    if v > 0 {
        proof {
            reveal_strlit(" ");
        }
        if !none_yet {
            out.append(" ");
        }
        push_decimal(out, v);
        out.append(unit_str(e));
        proof {
            let u = (v as nat, e as nat);
            let vs = us + kept_unit(v as nat, e as nat);
            assert(vs.drop_last() =~= us);
            assert(vs.last() == u);
            if us.len() == 0 {
                assert(prefix + seq![] =~= prefix);
            }
        }
    } else {
        assert(us + kept_unit(v as nat, e as nat) =~= us);
    }
}

/// Converts bytes to human-readable values: each nonzero unit from GB down
/// to B, separated by single spaces, after a `-` for a negative count.
pub fn human_bytes(size: i64) -> (r: String)
    ensures
        r@ == human_bytes_text(size),
{
    if size == 0 {
        proof {
            reveal_strlit("0B");
        }
        return String::from_str("0B");
    }
    let mut bytes = String::new();
    if size < 0 {
        proof {
            reveal_strlit("-");
        }
        bytes.append("-");
    }
    let m: u64 = if size == i64::MIN {
        i64::MAX as u64
    } else if size < 0 {
        (-size) as u64
    } else {
        size as u64
    };
    let gb = m / 1073741824;
    let mb = m / 1048576 % 1024;
    let kb = m / 1024 % 1024;
    let b = m % 1024;
    let ghost prefix = bytes@;
    let ghost k3 = kept_unit(gb as nat, 3);
    let ghost k2 = kept_unit(mb as nat, 2);
    let ghost k1 = kept_unit(kb as nat, 1);
    let ghost k0 = kept_unit(b as nat, 0);
    let ghost none: Seq<(nat, nat)> = seq![];
    assert(bytes@ == prefix + render_units(none));
    push_unit(&mut bytes, Ghost(prefix), Ghost(none), true, gb, 3);
    assert(none + k3 =~= k3);
    push_unit(&mut bytes, Ghost(prefix), Ghost(k3), gb == 0, mb, 2);
    push_unit(&mut bytes, Ghost(prefix), Ghost(k3 + k2), gb == 0 && mb == 0, kb, 1);
    push_unit(&mut bytes, Ghost(prefix), Ghost(k3 + k2 + k1), gb == 0 && mb == 0 && kb == 0, b, 0);
    assert(prefix == sign_text(size));
    bytes
}

/// A field that a report section did not yield as an integer.
#[derive(Debug)]
pub struct FieldWarning {
    /// The field's name.
    pub label: String,
    /// The captured text that did not read as an integer; `None` when
    /// nothing was captured for the field.
    pub unparsable: Option<String>,
}

impl DeepView for FieldWarning {
    type V = (Seq<char>, Option<Seq<char>>);

    open spec fn deep_view(&self) -> Self::V {
        (self.label@, self.unparsable.deep_view())
    }
}

/// The field at position `i` of a section's fields: `None` past the end,
/// `Some(None)` for a group that took no part in the match.
pub open spec fn captured_field(fields: Seq<Option<Seq<char>>>, i: int) -> Option<
    Option<Seq<char>>,
> {
    if 0 <= i < fields.len() {
        Some(fields[i])
    } else {
        None
    }
}

/// The integer that a captured field stands for: its text without commas
/// read as an `i64`, and zero when there is no text or it does not read.
pub open spec fn field_value(captured: Option<Option<Seq<char>>>) -> i64 {
    match captured {
        Some(Some(t)) => match parsed_i64(strip_commas(t)) {
            Some(v) => v,
            None => 0,
        },
        _ => 0,
    }
}

/// The warnings that reading a captured field gives: none when it reads,
/// one naming `label` otherwise.
pub open spec fn field_warnings(label: Seq<char>, captured: Option<Option<Seq<char>>>) -> Seq<
    (Seq<char>, Option<Seq<char>>),
> {
    match captured {
        Some(Some(t)) => match parsed_i64(strip_commas(t)) {
            Some(_) => seq![],
            None => seq![(label, Some(t))],
        },
        _ => seq![(label, None)],
    }
}

/// A captured field of digits grouped by commas reads, without a warning, as
/// the number that its digits write, whenever that fits in an `i64`.
pub proof fn lemma_separated_field(label: Seq<char>, t: Seq<char>)
    requires
        forall|i: int| 0 <= i < t.len() ==> is_digit(#[trigger] t[i]) || t[i] == ',',
        strip_commas(t).len() > 0,
        digits_value(strip_commas(t)) <= i64::MAX,
    ensures
        field_value(Some(Some(t))) == digits_value(strip_commas(t)),
        field_warnings(label, Some(Some(t))) == Seq::<(Seq<char>, Option<Seq<char>>)>::empty(),
{
    lemma_separated_digits_read(t);
}

/// Records that the field `param_name` was not found, and stands in zero for it.
pub fn warn_and_return(param_name: &str, warnings: &mut Vec<FieldWarning>) -> (r: i64)
    ensures
        r == 0,
        final(warnings).deep_view() == old(warnings).deep_view().push((param_name@, None)),
{
    let ghost before = warnings.deep_view();
    warnings.push(FieldWarning { label: String::from_str(param_name), unparsable: None });
    assert(warnings.deep_view() =~= before.push((param_name@, None)));
    0
}

/// Reads a captured field as an integer, thousands separators allowed.
/// A missing field or text that does not read gives zero and a warning.
pub fn parse_output_line(
    param_name: &str,
    param: Option<Option<&str>>,
    warnings: &mut Vec<FieldWarning>,
) -> (r: i64)
    ensures
        r == field_value(param.deep_view()),
        final(warnings).deep_view() == old(warnings).deep_view() + field_warnings(
            param_name@,
            param.deep_view(),
        ),
{
    let ghost before = warnings.deep_view();
    let text = match param {
        Some(Some(t)) => t,
        _ => {
            let r = warn_and_return(param_name, warnings);
            assert(before.push((param_name@, None)) =~= before + seq![(param_name@, None)]);
            return r;
        },
    };
    let digits = without_commas(text);
    match parse_i64(&digits) {
        Some(v) => {
            assert(before + seq![] =~= before);
            v
        },
        None => {
            warnings.push(
                FieldWarning {
                    label: String::from_str(param_name),
                    unparsable: Some(String::from_str(text)),
                },
            );
            assert(warnings.deep_view() =~= before + seq![(param_name@, Some(text@))]);
            0
        },
    }
}

/// The field at position `i` of `fields`.
pub fn field_at(fields: &Vec<Option<String>>, i: usize) -> (r: Option<Option<&str>>)
    ensures
        r.deep_view() == captured_field(fields.deep_view(), i as int),
{
    if i < fields.len() {
        match &fields[i] {
            Some(t) => Some(Some(t.as_str())),
            None => Some(None),
        }
    } else {
        None
    }
}

/// Whether `pattern` compiles as a regular expression.
pub uninterp spec fn pattern_compiles(pattern: Seq<char>) -> bool;

/// The capture groups of the first match of `pattern` in `text`, the whole
/// match first; `None` when it matches nowhere.
pub uninterp spec fn first_captures(pattern: Seq<char>, text: Seq<char>) -> Option<
    Seq<Option<Seq<char>>>,
>;

#[verifier::external_type_specification]
#[verifier::external_body]
pub struct ExRegexError(regex::Error);

/// Relies on regex::Regex::new, which compiles `pattern` or returns an error,
/// and on regex::Regex::captures, which finds the leftmost-first match in
/// `text` and yields every capture group of it in the order of its opening
/// parenthesis, the whole match at index 0. The compiled regex is opaque, so
/// the two calls stand in one wrapper, named by the pattern it was built from.
#[verifier::external_body]
fn regex_captures(pattern: &str, text: &str) -> (r: Result<
    Option<Vec<Option<String>>>,
    regex::Error,
>)
    ensures
        r is Ok <==> pattern_compiles(pattern@),
        r matches Ok(found) ==> found.deep_view() == first_captures(pattern@, text@),
{
    let re = regex::Regex::new(pattern)?;
    Ok(re.captures(text).map(|c| c.iter().map(|m| m.map(|m| m.as_str().to_string())).collect()))
}

/// Why a pattern gave no capture groups.
#[derive(Debug, Clone, Copy, PartialEq, Eq, Structural)]
pub enum CaptureError {
    /// The pattern is not a regular expression that compiles.
    InvalidPattern,
    /// The pattern matches nowhere in the text.
    NoMatch,
}

/// What applying `pattern` to `text` gives: the groups of the first match, or why there are none.
pub open spec fn capture_outcome(pattern: Seq<char>, text: Seq<char>) -> Result<
    Seq<Option<Seq<char>>>,
    CaptureError,
> {
    if !pattern_compiles(pattern) {
        Err(CaptureError::InvalidPattern)
    } else {
        match first_captures(pattern, text) {
            Some(groups) => Ok(groups),
            None => Err(CaptureError::NoMatch),
        }
    }
}

/// The groups that name fields: all but the whole match at index 0.
pub open spec fn fields_of(groups: Seq<Option<Seq<char>>>) -> Seq<Option<Seq<char>>> {
    if groups.len() == 0 {
        groups
    } else {
        groups.drop_first()
    }
}

/// The capture groups of the first match of a pattern, the whole match first.
pub struct Capture {
    groups: Vec<Option<String>>,
}

impl View for Capture {
    type V = Seq<Option<Seq<char>>>;

    closed spec fn view(&self) -> Self::V {
        self.groups.deep_view()
    }
}

fn clone_group(g: &Option<String>) -> (r: Option<String>)
    ensures
        r.deep_view() == g.deep_view(),
{
    match g {
        Some(t) => Some(t.clone()),
        None => None,
    }
}

impl Capture {
    /// Applies the regular expression `re` to `output` and keeps the groups of its first match.
    pub fn new(re: &str, output: &str) -> (r: Result<Capture, CaptureError>)
        ensures
            match r {
                Ok(c) => capture_outcome(re@, output@) == Ok::<_, CaptureError>(c@),
                Err(e) => capture_outcome(re@, output@) == Err::<Seq<Option<Seq<char>>>, _>(e),
            },
    {
        match regex_captures(re, output) {
            Ok(Some(groups)) => Ok(Capture { groups }),
            Ok(None) => Err(CaptureError::NoMatch),
            Err(_) => Err(CaptureError::InvalidPattern),
        }
    }

    /// A capture made of the given groups, the whole match first.
    pub fn from_groups(groups: Vec<Option<String>>) -> (r: Capture)
        ensures
            r@ == groups.deep_view(),
    {
        Capture { groups }
    }

    /// The groups after the whole match: one for each field of the section.
    pub fn iter_next(&self) -> (r: Vec<Option<String>>)
        ensures
            r.deep_view() == fields_of(self@),
    {
        let mut r: Vec<Option<String>> = Vec::new();
        let n = self.groups.len();
        if n == 0 {
            assert(r.deep_view() =~= self@);
            return r;
        }
        let mut i: usize = 1;
        while i < n
            invariant
                n == self.groups.len(),
                1 <= i <= n,
                r.deep_view() == self@.subrange(1, i as int),
            decreases n - i,
        {
            let ghost before = r.deep_view();
            let g = clone_group(&self.groups[i]);
            assert(g.deep_view() == self@[i as int]);
            r.push(g);
            assert(r.deep_view() =~= before.push(g.deep_view()));
            assert(self@.subrange(1, i + 1) =~= self@.subrange(1, i as int).push(self@[i as int]));
            i += 1;
        }
        assert(self@.subrange(1, n as int) =~= self@.drop_first());
        r
    }
}

} // verus!
