//! Serialization of the license payload to its JSON wire form.
//!
//! The wire format is fixed: one object with the camelCase field names
//! of the license record, entitlements as an array of objects, strings
//! escaped as JSON demands. The whole rendering is specified character
//! by character and the serializer is proved to produce exactly it.

use vstd::prelude::*;

use crate::jetbra_key::{LicenseData, LicenseDataView, LicenseProduct, LicenseProductView};
use crate::text::{push_decimal, spec_decimal, spec_digit, string_push};
use vstd::string::StringExecFns;

verus! {

/// The hexadecimal digit character for `d`, lower case.
pub open spec fn spec_hex_digit(d: int) -> char {
    if d < 10 {
        spec_digit(d)
    } else {
        ((0x61 + (d - 10)) as u8) as char
    }
}

/// The JSON rendering of one character of a string value: the short
/// escapes for the quote, the backslash and the common control
/// characters, a `\u00..` escape for any other control character, and
/// the character itself otherwise.
pub open spec fn spec_escape_char(c: char) -> Seq<char> {
    if c == '"' {
        seq!['\\', '"']
    } else if c == '\\' {
        seq!['\\', '\\']
    } else if c == '\u{8}' {
        seq!['\\', 'b']
    } else if c == '\u{c}' {
        seq!['\\', 'f']
    } else if c == '\n' {
        seq!['\\', 'n']
    } else if c == '\r' {
        seq!['\\', 'r']
    } else if c == '\t' {
        seq!['\\', 't']
    } else if (c as u32) < 0x20 {
        seq!['\\', 'u', '0', '0', spec_hex_digit((c as u32) as int / 16), spec_hex_digit(
            (c as u32) as int % 16,
        )]
    } else {
        seq![c]
    }
}

/// The JSON rendering of the characters of a string value.
pub open spec fn spec_json_escape(s: Seq<char>) -> Seq<char>
    decreases s.len(),
{
    if s.len() == 0 {
        Seq::empty()
    } else {
        spec_escape_char(s[0]) + spec_json_escape(s.drop_first())
    }
}

/// The JSON rendering of a string value, quotes included.
pub open spec fn spec_json_string(s: Seq<char>) -> Seq<char> {
    seq!['"'] + spec_json_escape(s) + seq!['"']
}

/// The JSON rendering of a boolean value.
pub open spec fn spec_bool_text(b: bool) -> Seq<char> {
    if b {
        "true"@
    } else {
        "false"@
    }
}

/// The JSON rendering of one entitlement object.
pub open spec fn spec_product_json(p: LicenseProductView) -> Seq<char> {
    "{\"code\":"@ + spec_json_string(p.code) + ",\"fallbackDate\":"@ + spec_json_string(
        p.fallback_date,
    ) + ",\"paidUpTo\":"@ + spec_json_string(p.paid_up_to) + ",\"extended\":"@ + spec_bool_text(
        p.extended,
    ) + "}"@
}

/// The comma-separated continuation of an entitlement array.
pub open spec fn spec_products_json_tail(ps: Seq<LicenseProductView>) -> Seq<char>
    decreases ps.len(),
{
    if ps.len() == 0 {
        Seq::empty()
    } else {
        ","@ + spec_product_json(ps[0]) + spec_products_json_tail(ps.drop_first())
    }
}

/// The JSON rendering of the entitlement array's elements.
pub open spec fn spec_products_json(ps: Seq<LicenseProductView>) -> Seq<char> {
    if ps.len() == 0 {
        Seq::empty()
    } else {
        spec_product_json(ps[0]) + spec_products_json_tail(ps.drop_first())
    }
}

/// The JSON rendering of the whole license record, field names exactly
/// as the wire format lists them.
pub open spec fn spec_license_json(d: LicenseDataView) -> Seq<char> {
    "{\"licenseId\":"@ + spec_json_string(d.license_id) + ",\"licenseeName\":"@ + spec_json_string(
        d.licensee_name,
    ) + ",\"assigneeName\":"@ + spec_json_string(d.assignee_name) + ",\"assigneeEmail\":"@
        + spec_json_string(d.assignee_email) + ",\"licenseRestriction\":"@ + spec_json_string(
        d.license_restriction,
    ) + ",\"checkConcurrentUse\":"@ + spec_bool_text(d.check_concurrent_use) + ",\"products\":["@
        + spec_products_json(d.products) + "],\"metadata\":"@ + spec_json_string(d.metadata)
        + ",\"hash\":"@ + spec_json_string(d.hash) + ",\"gracePeriodDays\":"@ + spec_decimal(
        d.grace_period_days as nat,
    ) + ",\"autoProlongated\":"@ + spec_bool_text(d.auto_prolongated) + ",\"isAutoProlongated\":"@
        + spec_bool_text(d.is_auto_prolongated) + "}"@
}

/// The hexadecimal digit character for `d`, lower case.
fn hex_digit_char(d: u8) -> (c: char)
    requires
        d < 16,
    ensures
        c == spec_hex_digit(d as int),
{
    if d < 10 {
        (0x30 + d) as char
    } else {
        (0x61 + (d - 10)) as char
    }
}

/// Appends the JSON rendering of one string-value character.
fn push_escaped_char(out: &mut String, c: char)
    ensures
        final(out)@ == old(out)@ + spec_escape_char(c),
{
    if c == '"' {
        string_push(out, '\\');
        string_push(out, '"');
    } else if c == '\\' {
        string_push(out, '\\');
        string_push(out, '\\');
    } else if c == '\u{8}' {
        string_push(out, '\\');
        string_push(out, 'b');
    } else if c == '\u{c}' {
        string_push(out, '\\');
        string_push(out, 'f');
    } else if c == '\n' {
        string_push(out, '\\');
        string_push(out, 'n');
    } else if c == '\r' {
        string_push(out, '\\');
        string_push(out, 'r');
    } else if c == '\t' {
        string_push(out, '\\');
        string_push(out, 't');
    } else if (c as u32) < 0x20 {
        let code = c as u32;
        string_push(out, '\\');
        string_push(out, 'u');
        string_push(out, '0');
        string_push(out, '0');
        string_push(out, hex_digit_char((code / 16) as u8));
        string_push(out, hex_digit_char((code % 16) as u8));
    } else {
        string_push(out, c);
    }
    proof {
        assert(out@ =~= old(out)@ + spec_escape_char(c));
    }
}

/// Appends the JSON rendering of the characters of `s`.
#[verifier::loop_isolation(false)]
fn push_json_escaped(out: &mut String, s: &str)
    ensures
        final(out)@ == old(out)@ + spec_json_escape(s@),
{
    let len = s.unicode_len();
    let mut i: usize = 0;
    proof {
        assert(s@.skip(0) =~= s@);
    }
    while i < len
        invariant
            i <= len,
            old(out)@ + spec_json_escape(s@) =~= out@ + spec_json_escape(s@.skip(i as int)),
        decreases len - i,
    {
        proof {
            assert(s@.skip(i as int)[0] == s@[i as int]);
            assert(s@.skip(i as int).drop_first() =~= s@.skip(i as int + 1));
        }
        let c = s.get_char(i);
        push_escaped_char(out, c);
        i = i + 1;
    }
    proof {
        assert(s@.skip(len as int) =~= Seq::<char>::empty());
        assert(out@ =~= old(out)@ + spec_json_escape(s@));
    }
}

/// Appends the JSON rendering of a string value, quotes included.
fn push_json_string(out: &mut String, s: &str)
    ensures
        final(out)@ == old(out)@ + spec_json_string(s@),
{
    string_push(out, '"');
    push_json_escaped(out, s);
    string_push(out, '"');
    proof {
        assert(out@ =~= old(out)@ + spec_json_string(s@));
    }
}

/// Appends the JSON rendering of a boolean value.
fn push_bool(out: &mut String, b: bool)
    ensures
        final(out)@ == old(out)@ + spec_bool_text(b),
{
    if b {
        out.append("true");
    } else {
        out.append("false");
    }
}

/// Appends the JSON rendering of one entitlement object.
fn push_product_json(out: &mut String, p: &LicenseProduct)
    ensures
        final(out)@ == old(out)@ + spec_product_json(p@),
{
    out.append("{\"code\":");
    push_json_string(out, p.code.as_str());
    out.append(",\"fallbackDate\":");
    push_json_string(out, p.fallback_date.as_str());
    out.append(",\"paidUpTo\":");
    push_json_string(out, p.paid_up_to.as_str());
    out.append(",\"extended\":");
    push_bool(out, p.extended);
    out.append("}");
    proof {
        assert(out@ =~= old(out)@ + spec_product_json(p@));
    }
}

/// Appends the JSON rendering of the entitlement array's elements.
#[verifier::loop_isolation(false)]
fn push_products_json(out: &mut String, ps: &Vec<LicenseProduct>)
    ensures
        final(out)@ == old(out)@ + spec_products_json(ps.deep_view()),
{
    let ghost dv = ps.deep_view();
    if ps.len() == 0 {
        proof {
            assert(out@ =~= old(out)@ + spec_products_json(dv));
        }
        return ;
    }
    push_product_json(out, &ps[0]);
    proof {
        assert(dv.skip(1) =~= dv.drop_first());
    }
    let mut j: usize = 1;
    while j < ps.len()
        invariant
            1 <= j <= dv.len(),
            old(out)@ + spec_products_json(dv) =~= out@ + spec_products_json_tail(
                dv.skip(j as int),
            ),
        decreases dv.len() - j,
    {
        proof {
            assert(dv.skip(j as int)[0] == dv[j as int]);
            assert(dv.skip(j as int).drop_first() =~= dv.skip(j as int + 1));
            assert(dv[j as int] == ps@[j as int]@);
        }
        out.append(",");
        push_product_json(out, &ps[j]);
        j = j + 1;
    }
    proof {
        assert(dv.skip(dv.len() as int) =~= Seq::<LicenseProductView>::empty());
        assert(out@ =~= old(out)@ + spec_products_json(dv));
    }
}

/// Renders the license record to its JSON wire form, exactly as
/// [`spec_license_json`] describes.
#[verifier::rlimit(50)]
pub fn license_data_to_json(d: &LicenseData) -> (s: String)
    ensures
        s@ == spec_license_json(d.deep_view()),
{
    let mut s = String::new();
    s.append("{\"licenseId\":");
    push_json_string(&mut s, d.license_id.as_str());
    s.append(",\"licenseeName\":");
    push_json_string(&mut s, d.licensee_name.as_str());
    s.append(",\"assigneeName\":");
    push_json_string(&mut s, d.assignee_name.as_str());
    s.append(",\"assigneeEmail\":");
    push_json_string(&mut s, d.assignee_email.as_str());
    s.append(",\"licenseRestriction\":");
    push_json_string(&mut s, d.license_restriction.as_str());
    s.append(",\"checkConcurrentUse\":");
    push_bool(&mut s, d.check_concurrent_use);
    s.append(",\"products\":[");
    push_products_json(&mut s, &d.products);
    s.append("],\"metadata\":");
    push_json_string(&mut s, d.metadata.as_str());
    s.append(",\"hash\":");
    push_json_string(&mut s, d.hash.as_str());
    s.append(",\"gracePeriodDays\":");
    push_decimal(&mut s, d.grace_period_days as u64);
    s.append(",\"autoProlongated\":");
    push_bool(&mut s, d.auto_prolongated);
    s.append(",\"isAutoProlongated\":");
    push_bool(&mut s, d.is_auto_prolongated);
    s.append("}");
    proof {
        assert(s@ =~= spec_license_json(d.deep_view()));
    }
    s
}

} // verus!
