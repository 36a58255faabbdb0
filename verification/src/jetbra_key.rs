//! Decoding of externally supplied license tokens.
//!
//! A license token is a string of exactly four dash-separated segments:
//! an identifier, a base64-encoded payload, a signature and a public
//! key. [`extract_valid_jbkey`] splits the token, checks its shape and
//! decodes the payload; the signature and public-key segments are left
//! to the caller uninterpreted.

use vstd::prelude::*;

use crate::catalog::{
    read_products, spec_default_catalog_text, spec_parse_catalog, IdeConfig, IdeConfigView,
    PluginConfig, PluginConfigView, ProductConfig,
};
use crate::error::{Error, ErrorKind};
use crate::json::{license_data_to_json, spec_license_json};
use crate::text::{spec_split, split_on_char};
use vstd::utf8::{decode_utf8, valid_utf8};

verus! {

/// What base64 decoding with the standard alphabet returns for the
/// given characters: `None` where the input is not valid base64.
pub uninterp spec fn spec_base64_decode(s: Seq<char>) -> Option<Seq<u8>>;

/// Relies on base64's `Engine::decode` with the standard alphabet and
/// padding: the result is a function of the input characters alone, and
/// decoding fails exactly on inputs that are not valid base64.
#[verifier::external_body]
fn base64_decode(s: &str) -> (r: Option<Vec<u8>>)
    ensures
        match r {
            Some(v) => spec_base64_decode(s@) == Some(v@),
            None => spec_base64_decode(s@) is None,
        },
{
    base64::Engine::decode(&base64::engine::general_purpose::STANDARD, s).ok()
}

/// Relies on std's `str::from_utf8`: it succeeds exactly on valid UTF-8
/// and returns the text those bytes encode, here stated with vstd's
/// UTF-8 model.
#[verifier::external_body]
fn utf8_to_string(bytes: &Vec<u8>) -> (r: Option<String>)
    ensures
        match r {
            Some(s) => valid_utf8(bytes@) && s@ == decode_utf8(bytes@),
            None => !valid_utf8(bytes@),
        },
{
    match std::str::from_utf8(bytes) {
        Ok(s) => Some(s.to_owned()),
        Err(_) => None,
    }
}

/// Splits a license token into its identifier and decoded payload.
///
/// The token must hold exactly four dash-separated segments, else the
/// call fails with a format error. The second segment is base64-decoded
/// and must decode to valid text; either failure is an encoding error,
/// each with its fixed detail text. On success the identifier segment
/// is returned verbatim together with the decoded payload text.
pub fn extract_valid_jbkey(k: &str) -> (r: Result<(String, String), Error>)
    ensures
        ({
            let segs = spec_split(k@, '-');
            &&& segs.len() != 4 ==> (r matches Err(e) && e.kind == ErrorKind::Format
                && e.details@
                == "Valid keys are separated into id, license, signature and public key using the `-` symbol"@)
            &&& segs.len() == 4 ==> match spec_base64_decode(segs[1]) {
                None => r matches Err(e) && e.kind == ErrorKind::Encoding && e.details@
                    == "Base64 decoding failed"@,
                Some(bytes) => {
                    &&& !valid_utf8(bytes) ==> (r matches Err(e) && e.kind
                        == ErrorKind::Encoding && e.details@ == "UTF-8 conversion failed"@)
                    &&& valid_utf8(bytes) ==> (r matches Ok(p) && p.0@ == segs[0] && p.1@
                        == decode_utf8(bytes))
                },
            }
        }),
{
    let segs = split_on_char(k, '-');
    proof {
        assert(segs.deep_view().len() == segs@.len());
        assert(forall|j: int| 0 <= j < segs@.len() ==> segs.deep_view()[j] == segs@[j]@);
    }
    if segs.len() != 4 {
        return Err(
            Error::new(
                ErrorKind::Format,
                "Valid keys are separated into id, license, signature and public key using the `-` symbol",
            ),
        );
    }
    let license_id = segs[0].clone();
    let decoded = base64_decode(segs[1].as_str());
    match decoded {
        None => Err(Error::new(ErrorKind::Encoding, "Base64 decoding failed")),
        Some(bytes) => match utf8_to_string(&bytes) {
            None => Err(Error::new(ErrorKind::Encoding, "UTF-8 conversion failed")),
            Some(text) => Ok((license_id, text)),
        },
    }
}

/// One requested product: a product code and the expiry date that the
/// entitlement should carry.
#[derive(Debug)]
pub struct ProductRequest {
    pub code: String,
    pub expired: String,
}

/// The mathematical image of a [`ProductRequest`].
pub struct ProductRequestView {
    pub code: Seq<char>,
    pub expired: Seq<char>,
}

impl View for ProductRequest {
    type V = ProductRequestView;

    open spec fn view(&self) -> ProductRequestView {
        ProductRequestView { code: self.code@, expired: self.expired@ }
    }
}

impl DeepView for ProductRequest {
    type V = ProductRequestView;

    open spec fn deep_view(&self) -> ProductRequestView {
        self.view()
    }
}

/// One dated entitlement of the final license record.
#[derive(Debug)]
pub struct LicenseProduct {
    pub code: String,
    pub fallback_date: String,
    pub paid_up_to: String,
    pub extended: bool,
}

/// The mathematical image of a [`LicenseProduct`].
pub struct LicenseProductView {
    pub code: Seq<char>,
    pub fallback_date: Seq<char>,
    pub paid_up_to: Seq<char>,
    pub extended: bool,
}

impl View for LicenseProduct {
    type V = LicenseProductView;

    open spec fn view(&self) -> LicenseProductView {
        LicenseProductView {
            code: self.code@,
            fallback_date: self.fallback_date@,
            paid_up_to: self.paid_up_to@,
            extended: self.extended,
        }
    }
}

impl DeepView for LicenseProduct {
    type V = LicenseProductView;

    open spec fn deep_view(&self) -> LicenseProductView {
        self.view()
    }
}

/// The final license payload: identity fields, entitlement flags with
/// their static defaults, and the ordered entitlement list.
///
/// Invariant owed by the builder: after de-duplication no two entries
/// of `products` share a code.
#[derive(Debug)]
pub struct LicenseData {
    pub license_id: String,
    pub licensee_name: String,
    pub assignee_name: String,
    pub assignee_email: String,
    pub license_restriction: String,
    pub check_concurrent_use: bool,
    pub products: Vec<LicenseProduct>,
    pub metadata: String,
    pub hash: String,
    pub grace_period_days: u32,
    pub auto_prolongated: bool,
    pub is_auto_prolongated: bool,
}

/// The mathematical image of a [`LicenseData`].
pub struct LicenseDataView {
    pub license_id: Seq<char>,
    pub licensee_name: Seq<char>,
    pub assignee_name: Seq<char>,
    pub assignee_email: Seq<char>,
    pub license_restriction: Seq<char>,
    pub check_concurrent_use: bool,
    pub products: Seq<LicenseProductView>,
    pub metadata: Seq<char>,
    pub hash: Seq<char>,
    pub grace_period_days: u32,
    pub auto_prolongated: bool,
    pub is_auto_prolongated: bool,
}

impl View for LicenseData {
    type V = LicenseDataView;

    open spec fn view(&self) -> LicenseDataView {
        LicenseDataView {
            license_id: self.license_id@,
            licensee_name: self.licensee_name@,
            assignee_name: self.assignee_name@,
            assignee_email: self.assignee_email@,
            license_restriction: self.license_restriction@,
            check_concurrent_use: self.check_concurrent_use,
            products: self.products.deep_view(),
            metadata: self.metadata@,
            hash: self.hash@,
            grace_period_days: self.grace_period_days,
            auto_prolongated: self.auto_prolongated,
            is_auto_prolongated: self.is_auto_prolongated,
        }
    }
}

impl DeepView for LicenseData {
    type V = LicenseDataView;

    open spec fn deep_view(&self) -> LicenseDataView {
        self.view()
    }
}

/// The payload with the given identity fields and entitlements, and the
/// static defaults everywhere else.
pub open spec fn spec_license_record(
    license_id: Seq<char>,
    licensee_name: Seq<char>,
    assignee_name: Seq<char>,
    assignee_email: Seq<char>,
    products: Seq<LicenseProductView>,
) -> LicenseDataView {
    LicenseDataView {
        license_id,
        licensee_name,
        assignee_name,
        assignee_email,
        license_restriction: Seq::empty(),
        check_concurrent_use: false,
        products,
        metadata: "0120220902PSAN000005"@,
        hash: "TRIAL:1234567890"@,
        grace_period_days: 7,
        auto_prolongated: false,
        is_auto_prolongated: false,
    }
}

impl LicenseData {
    /// A payload carrying placeholder identity fields, the static
    /// defaults, and no entitlements.
    pub fn default() -> (d: LicenseData)
        ensures
            d.deep_view() == spec_license_record(
                "8888888888"@,
                "your name"@,
                "your name"@,
                "admin@example.com"@,
                Seq::empty(),
            ),
    {
        let d = LicenseData {
            license_id: "8888888888".to_owned(),
            licensee_name: "your name".to_owned(),
            assignee_name: "your name".to_owned(),
            assignee_email: "admin@example.com".to_owned(),
            license_restriction: "".to_owned(),
            check_concurrent_use: false,
            products: Vec::new(),
            metadata: "0120220902PSAN000005".to_owned(),
            hash: "TRIAL:1234567890".to_owned(),
            grace_period_days: 7,
            auto_prolongated: false,
            is_auto_prolongated: false,
        };
        proof {
            reveal_strlit("");
            assert(""@ =~= Seq::<char>::empty());
            assert(d.products.deep_view() =~~= Seq::<LicenseProductView>::empty());
        }
        d
    }
}

/// The first IDE entry whose code equals `code`, if any.
pub open spec fn spec_find_ide(ides: Seq<IdeConfigView>, code: Seq<char>) -> Option<IdeConfigView>
    decreases ides.len(),
{
    if ides.len() == 0 {
        None
    } else if ides[0].code == code {
        Some(ides[0])
    } else {
        spec_find_ide(ides.drop_first(), code)
    }
}

/// The first plugin entry whose code equals `code`, if any.
pub open spec fn spec_find_plugin(cat: Seq<PluginConfigView>, code: Seq<char>) -> Option<
    PluginConfigView,
>
    decreases cat.len(),
{
    if cat.len() == 0 {
        None
    } else if cat[0].code == code {
        Some(cat[0])
    } else {
        spec_find_plugin(cat.drop_first(), code)
    }
}

/// The entitlements produced for the bundled plugin codes of a matched
/// IDE, in bundle order: every bundled code must resolve in the plugin
/// catalog, both dates carry the IDE expiry, and every entry is
/// extended. `None` where some bundled code is absent from the catalog.
pub open spec fn spec_bundle_products(
    bundle: Seq<Seq<char>>,
    cat: Seq<PluginConfigView>,
    expired: Seq<char>,
) -> Option<Seq<LicenseProductView>>
    decreases bundle.len(),
{
    if bundle.len() == 0 {
        Some(Seq::empty())
    } else {
        match spec_find_plugin(cat, bundle[0]) {
            None => None,
            Some(p) => match spec_bundle_products(bundle.drop_first(), cat, expired) {
                None => None,
                Some(rest) => Some(
                    seq![
                        LicenseProductView {
                            code: p.code,
                            fallback_date: expired,
                            paid_up_to: expired,
                            extended: true,
                        },
                    ] + rest,
                ),
            },
        }
    }
}

/// The entitlements produced for explicitly requested plugins, in
/// request order: every requested code must resolve in the plugin
/// catalog, both dates carry the request's expiry, and the entries are
/// extended exactly where an IDE was also requested. `None` where some
/// requested code is absent from the catalog.
pub open spec fn spec_explicit_products(
    reqs: Seq<ProductRequestView>,
    cat: Seq<PluginConfigView>,
    ide_present: bool,
) -> Option<Seq<LicenseProductView>>
    decreases reqs.len(),
{
    if reqs.len() == 0 {
        Some(Seq::empty())
    } else {
        match spec_find_plugin(cat, reqs[0].code) {
            None => None,
            Some(p) => match spec_explicit_products(reqs.drop_first(), cat, ide_present) {
                None => None,
                Some(rest) => Some(
                    seq![
                        LicenseProductView {
                            code: p.code,
                            fallback_date: reqs[0].expired,
                            paid_up_to: reqs[0].expired,
                            extended: ide_present,
                        },
                    ] + rest,
                ),
            },
        }
    }
}

/// Whether some entry of `ps` carries the code `code`.
pub open spec fn spec_has_code(ps: Seq<LicenseProductView>, code: Seq<char>) -> bool {
    exists|i: int| 0 <= i < ps.len() && ps[i].code == code
}

/// The set of codes carried by entries of `ps`.
pub open spec fn spec_code_set(ps: Seq<LicenseProductView>) -> Set<Seq<char>> {
    Set::new(|c: Seq<char>| spec_has_code(ps, c))
}

/// De-duplication by code with a running set of codes already kept: an
/// entry whose code was seen before is dropped, any other entry is kept
/// and its code added to the seen set.
pub open spec fn spec_dedup_rec(ps: Seq<LicenseProductView>, seen: Set<Seq<char>>) -> Seq<
    LicenseProductView,
>
    decreases ps.len(),
{
    if ps.len() == 0 {
        Seq::empty()
    } else if seen.contains(ps[0].code) {
        spec_dedup_rec(ps.drop_first(), seen)
    } else {
        seq![ps[0]] + spec_dedup_rec(ps.drop_first(), seen.insert(ps[0].code))
    }
}

/// De-duplication by code keeping the first occurrence: of several
/// entries sharing a code, only the earliest survives, and the order of
/// survivors is the order of the input.
pub open spec fn spec_dedup(ps: Seq<LicenseProductView>) -> Seq<LicenseProductView> {
    spec_dedup_rec(ps, Set::empty())
}

/// Whether position `i` holds the first occurrence of its code in `ps`.
pub open spec fn spec_is_first_occurrence(ps: Seq<LicenseProductView>, i: int) -> bool {
    &&& 0 <= i < ps.len()
    &&& forall|j: int| 0 <= j < i ==> ps[j].code != ps[i].code
}

proof fn lemma_dedup_rec_keeps_first(
    ps: Seq<LicenseProductView>,
    seen: Set<Seq<char>>,
    i: int,
)
    requires
        0 <= i < ps.len(),
        !seen.contains(ps[i].code),
        forall|j: int| 0 <= j < i ==> ps[j].code != ps[i].code,
    ensures
        spec_dedup_rec(ps, seen).contains(ps[i]),
    decreases ps.len(),
{
    if i == 0 {
        assert(!seen.contains(ps[0].code));
        assert(spec_dedup_rec(ps, seen)[0] == ps[0]);
    } else {
        let rest = ps.drop_first();
        assert(rest[i - 1] == ps[i]);
        assert forall|j: int| 0 <= j < i - 1 implies (#[trigger] rest[j]).code != rest[i
            - 1].code by {
            assert(rest[j] == ps[j + 1]);
            assert(rest[i - 1] == ps[i]);
        }
        if seen.contains(ps[0].code) {
            lemma_dedup_rec_keeps_first(rest, seen, i - 1);
        } else {
            assert(ps[0].code != ps[i].code);
            lemma_dedup_rec_keeps_first(rest, seen.insert(ps[0].code), i - 1);
            let k = choose|k: int|
                0 <= k < spec_dedup_rec(rest, seen.insert(ps[0].code)).len() && spec_dedup_rec(
                    rest,
                    seen.insert(ps[0].code),
                )[k] == rest[i - 1];
            assert(spec_dedup_rec(ps, seen)[k + 1] == ps[i]);
        }
    }
}

proof fn lemma_dedup_rec_members(ps: Seq<LicenseProductView>, seen: Set<Seq<char>>, k: int)
    requires
        0 <= k < spec_dedup_rec(ps, seen).len(),
    ensures
        exists|i: int|
            spec_is_first_occurrence(ps, i) && !seen.contains(ps[i].code) && ps[i]
                == spec_dedup_rec(ps, seen)[k],
    decreases ps.len(),
{
    let rest = ps.drop_first();
    if seen.contains(ps[0].code) {
        lemma_dedup_rec_members(rest, seen, k);
        let i = choose|i: int|
            spec_is_first_occurrence(rest, i) && !seen.contains(rest[i].code) && rest[i]
                == spec_dedup_rec(rest, seen)[k];
        assert(ps[i + 1] == rest[i]);
        assert(ps[0].code != ps[i + 1].code);
        assert forall|j: int| 1 <= j < i + 1 implies (#[trigger] ps[j]).code != ps[i + 1].code by {
            assert(rest[j - 1] == ps[j]);
            assert(rest[j - 1].code != rest[i].code);
        }
        assert(spec_is_first_occurrence(ps, i + 1) && !seen.contains(ps[i + 1].code) && ps[i + 1]
            == spec_dedup_rec(ps, seen)[k]);
    } else {
        if k == 0 {
            assert(spec_is_first_occurrence(ps, 0) && !seen.contains(ps[0].code) && ps[0]
                == spec_dedup_rec(ps, seen)[0]);
        } else {
            let seen2 = seen.insert(ps[0].code);
            lemma_dedup_rec_members(rest, seen2, k - 1);
            let i = choose|i: int|
                spec_is_first_occurrence(rest, i) && !seen2.contains(rest[i].code) && rest[i]
                    == spec_dedup_rec(rest, seen2)[k - 1];
            assert(ps[i + 1] == rest[i]);
            assert(ps[0].code != ps[i + 1].code);
            assert forall|j: int| 1 <= j < i + 1 implies (#[trigger] ps[j]).code != ps[i
                + 1].code by {
                assert(rest[j - 1] == ps[j]);
                assert(rest[j - 1].code != rest[i].code);
            }
            assert(spec_is_first_occurrence(ps, i + 1) && !seen.contains(ps[i + 1].code) && ps[i
                + 1] == spec_dedup_rec(ps, seen)[k]);
        }
    }
}

proof fn lemma_dedup_rec_unique(ps: Seq<LicenseProductView>, seen: Set<Seq<char>>)
    ensures
        forall|a: int, b: int|
            0 <= a < b < spec_dedup_rec(ps, seen).len() ==> spec_dedup_rec(ps, seen)[a].code
                != spec_dedup_rec(ps, seen)[b].code,
    decreases ps.len(),
{
    if ps.len() == 0 {
    } else {
        let rest = ps.drop_first();
        let d = spec_dedup_rec(ps, seen);
        if seen.contains(ps[0].code) {
            lemma_dedup_rec_unique(rest, seen);
            assert forall|a: int, b: int| 0 <= a < b < d.len() implies d[a].code != d[b].code by {
                assert(d == spec_dedup_rec(rest, seen));
                assert(spec_dedup_rec(rest, seen)[a].code != spec_dedup_rec(rest, seen)[b].code);
            }
        } else {
            let seen2 = seen.insert(ps[0].code);
            lemma_dedup_rec_unique(rest, seen2);
            let d2 = spec_dedup_rec(rest, seen2);
            assert forall|a: int, b: int| 0 <= a < b < d.len() implies d[a].code != d[b].code by {
                assert(d == seq![ps[0]] + d2);
                if a == 0 {
                    lemma_dedup_rec_members(rest, seen2, b - 1);
                    let i = choose|i: int|
                        spec_is_first_occurrence(rest, i) && !seen2.contains(rest[i].code)
                            && rest[i] == d2[b - 1];
                    assert(d[b] == d2[b - 1]);
                    assert(!seen2.contains(d2[b - 1].code));
                    assert(d[0] == ps[0]);
                    assert(seen2.contains(ps[0].code));
                } else {
                    assert(d[a] == d2[a - 1] && d[b] == d2[b - 1]);
                    assert(d2[a - 1].code != d2[b - 1].code);
                }
            }
        }
    }
}

/// Law: de-duplication keeps the first occurrence of every code. An
/// entry that carries a code not carried by any earlier entry — such
/// as an IDE-derived entry that an explicitly requested plugin later
/// duplicates — survives de-duplication.
pub proof fn lemma_dedup_keeps_first(ps: Seq<LicenseProductView>, i: int)
    requires
        spec_is_first_occurrence(ps, i),
    ensures
        spec_dedup(ps).contains(ps[i]),
{
    lemma_dedup_rec_keeps_first(ps, Set::empty(), i);
}

/// Law: de-duplication emits nothing but first occurrences. Every
/// entry of the de-duplicated sequence is the first occurrence of its
/// code in the input, so a later duplicate — an explicitly requested
/// plugin whose code an IDE bundle already emitted — never survives.
pub proof fn lemma_dedup_members_are_first(ps: Seq<LicenseProductView>, k: int)
    requires
        0 <= k < spec_dedup(ps).len(),
    ensures
        exists|i: int| spec_is_first_occurrence(ps, i) && ps[i] == spec_dedup(ps)[k],
{
    lemma_dedup_rec_members(ps, Set::empty(), k);
    let i = choose|i: int|
        spec_is_first_occurrence(ps, i) && !Set::<Seq<char>>::empty().contains(ps[i].code)
            && ps[i] == spec_dedup_rec(ps, Set::empty())[k];
    assert(spec_is_first_occurrence(ps, i) && ps[i] == spec_dedup(ps)[k]);
}

/// Law: after de-duplication no two entries share a code — the
/// uniqueness invariant owed by the final `products` list.
pub proof fn lemma_dedup_unique_codes(ps: Seq<LicenseProductView>)
    ensures
        forall|a: int, b: int|
            0 <= a < b < spec_dedup(ps).len() ==> spec_dedup(ps)[a].code != spec_dedup(ps)[b].code,
{
    lemma_dedup_rec_unique(ps, Set::empty());
}

/// The full entitlement construction: what the license builder owes for
/// a given catalog and request. With neither an IDE nor plugins the
/// request is an input error. Otherwise the IDE's bundled entitlements
/// come first, the explicitly requested ones follow, a failed lookup on
/// either side is a lookup error, and the merged sequence is
/// de-duplicated by code keeping first occurrences.
pub open spec fn spec_build(
    ides: Seq<IdeConfigView>,
    cat: Seq<PluginConfigView>,
    ide: Option<ProductRequestView>,
    plugins: Option<Seq<ProductRequestView>>,
) -> Result<Seq<LicenseProductView>, ErrorKind> {
    if ide is None && plugins is None {
        Err(ErrorKind::Input)
    } else {
        let ide_part = match ide {
            None => Some(Seq::empty()),
            Some(req) => match spec_find_ide(ides, req.code) {
                None => None,
                Some(icfg) => spec_bundle_products(icfg.plugin, cat, req.expired),
            },
        };
        match ide_part {
            None => Err(ErrorKind::Lookup),
            Some(ps1) => {
                let plugin_part = match plugins {
                    None => Some(Seq::empty()),
                    Some(reqs) => spec_explicit_products(reqs, cat, ide is Some),
                };
                match plugin_part {
                    None => Err(ErrorKind::Lookup),
                    Some(ps2) => Ok(spec_dedup(ps1 + ps2)),
                }
            },
        }
    }
}

/// Law: whatever the catalog and the request, a successfully built
/// entitlement sequence never carries two entries with the same code —
/// the uniqueness invariant of the final license record.
pub proof fn lemma_build_products_unique(
    ides: Seq<IdeConfigView>,
    cat: Seq<PluginConfigView>,
    ide: Option<ProductRequestView>,
    plugins: Option<Seq<ProductRequestView>>,
)
    ensures
        spec_build(ides, cat, ide, plugins) matches Ok(ps) ==> (forall|a: int, b: int|
            0 <= a < b < ps.len() ==> ps[a].code != ps[b].code),
{
    if spec_build(ides, cat, ide, plugins) is Ok {
        let ide_part = match ide {
            None => Some(Seq::<LicenseProductView>::empty()),
            Some(req) => match spec_find_ide(ides, req.code) {
                None => None,
                Some(icfg) => spec_bundle_products(icfg.plugin, cat, req.expired),
            },
        };
        let plugin_part = match plugins {
            None => Some(Seq::<LicenseProductView>::empty()),
            Some(reqs) => spec_explicit_products(reqs, cat, ide is Some),
        };
        let merged = ide_part->0 + plugin_part->0;
        assert(spec_build(ides, cat, ide, plugins) == Ok::<
            Seq<LicenseProductView>,
            ErrorKind,
        >(spec_dedup(merged)));
        lemma_dedup_unique_codes(merged);
    }
}

/// Locates the first IDE entry with the given code, as
/// [`spec_find_ide`] describes.
fn find_ide(ides: &Vec<IdeConfig>, code: &String) -> (r: Option<usize>)
    ensures
        match spec_find_ide(ides.deep_view(), code@) {
            None => r is None,
            Some(cfg) => r matches Some(i) && i < ides@.len() && ides.deep_view()[i as int]
                == cfg,
        },
{
    let ghost dv = ides.deep_view();
    let mut j: usize = 0;
    proof {
        assert(dv.skip(0) =~= dv);
    }
    while j < ides.len()
        invariant
            j <= ides@.len(),
            dv == ides.deep_view(),
            spec_find_ide(dv, code@) == spec_find_ide(dv.skip(j as int), code@),
        decreases ides@.len() - j,
    {
        proof {
            assert(dv.skip(j as int)[0] == dv[j as int]);
            assert(dv.skip(j as int).drop_first() =~= dv.skip(j as int + 1));
        }
        if ides[j].code == *code {
            proof {
                assert(dv[j as int] == ides@[j as int].deep_view());
            }
            return Some(j);
        }
        j = j + 1;
    }
    proof {
        assert(dv.skip(ides@.len() as int) =~= Seq::<IdeConfigView>::empty());
    }
    None
}

/// Locates the first plugin entry with the given code, as
/// [`spec_find_plugin`] describes.
fn find_plugin(cat: &Vec<PluginConfig>, code: &String) -> (r: Option<usize>)
    ensures
        match spec_find_plugin(cat.deep_view(), code@) {
            None => r is None,
            Some(cfg) => r matches Some(i) && i < cat@.len() && cat.deep_view()[i as int] == cfg,
        },
{
    let ghost dv = cat.deep_view();
    let mut j: usize = 0;
    proof {
        assert(dv.skip(0) =~= dv);
    }
    while j < cat.len()
        invariant
            j <= cat@.len(),
            dv == cat.deep_view(),
            spec_find_plugin(dv, code@) == spec_find_plugin(dv.skip(j as int), code@),
        decreases cat@.len() - j,
    {
        proof {
            assert(dv.skip(j as int)[0] == dv[j as int]);
            assert(dv.skip(j as int).drop_first() =~= dv.skip(j as int + 1));
        }
        if cat[j].code == *code {
            proof {
                assert(dv[j as int] == cat@[j as int].deep_view());
            }
            return Some(j);
        }
        j = j + 1;
    }
    proof {
        assert(dv.skip(cat@.len() as int) =~= Seq::<PluginConfigView>::empty());
    }
    None
}

/// A field-by-field copy of an entitlement.
fn clone_product(p: &LicenseProduct) -> (r: LicenseProduct)
    ensures
        r@ == p@,
{
    LicenseProduct {
        code: p.code.clone(),
        fallback_date: p.fallback_date.clone(),
        paid_up_to: p.paid_up_to.clone(),
        extended: p.extended,
    }
}

/// Whether some entry of `ps` already carries `code`, as
/// [`spec_has_code`] describes.
fn has_code(ps: &Vec<LicenseProduct>, code: &String) -> (b: bool)
    ensures
        b == spec_has_code(ps.deep_view(), code@),
{
    let ghost dv = ps.deep_view();
    let mut j: usize = 0;
    while j < ps.len()
        invariant
            j <= ps@.len(),
            dv == ps.deep_view(),
            forall|k: int| 0 <= k < j ==> dv[k].code != code@,
        decreases ps@.len() - j,
    {
        if ps[j].code == *code {
            proof {
                assert(dv[j as int].code == code@);
            }
            return true;
        }
        j = j + 1;
    }
    false
}

/// Adding an entry to a sequence adds exactly its code to the code set.
proof fn lemma_code_set_push(ps: Seq<LicenseProductView>, x: LicenseProductView)
    ensures
        spec_code_set(ps.push(x)) =~= spec_code_set(ps).insert(x.code),
{
    assert forall|c: Seq<char>| #[trigger] spec_code_set(ps.push(x)).contains(c) implies
        spec_code_set(ps).insert(x.code).contains(c) by {
        assert(spec_has_code(ps.push(x), c));
        let i = choose|i: int| 0 <= i < ps.push(x).len() && ps.push(x)[i].code == c;
        if i < ps.len() {
            assert(ps[i].code == c);
            assert(spec_has_code(ps, c));
            assert(spec_code_set(ps).contains(c));
        } else {
            assert(ps.push(x)[i] == x);
        }
    }
    assert forall|c: Seq<char>| #[trigger] spec_code_set(ps).insert(x.code).contains(c) implies
        spec_code_set(ps.push(x)).contains(c) by {
        if spec_code_set(ps).contains(c) {
            assert(spec_has_code(ps, c));
            let i = choose|i: int| 0 <= i < ps.len() && ps[i].code == c;
            assert(ps.push(x)[i].code == c);
            assert(spec_has_code(ps.push(x), c));
        } else {
            assert(c == x.code);
            assert(ps.push(x)[ps.len() as int].code == c);
            assert(spec_has_code(ps.push(x), c));
        }
    }
}

/// Entitlements for the bundled plugin codes of a matched IDE, as
/// [`spec_bundle_products`] describes.
#[verifier::loop_isolation(false)]
fn collect_bundle(cat: &Vec<PluginConfig>, icfg: &IdeConfig, expired: &String) -> (r: Result<
    Vec<LicenseProduct>,
    Error,
>)
    ensures
        ({
            let sb = spec_bundle_products(icfg@.plugin, cat.deep_view(), expired@);
            &&& r matches Ok(v) ==> sb == Some(v.deep_view())
            &&& r matches Err(e) ==> (sb is None && e.kind == ErrorKind::Lookup)
        }),
{
    let ghost bundle = icfg@.plugin;
    let ghost cat_dv = cat.deep_view();
    let mut out: Vec<LicenseProduct> = Vec::new();
    proof {
        assert(bundle.skip(0) =~= bundle);
        assert(out.deep_view() =~~= Seq::<LicenseProductView>::empty());
    }
    let mut b: usize = 0;
    while b < icfg.plugin.len()
        invariant
            b <= bundle.len(),
            ({
                let full = spec_bundle_products(bundle, cat_dv, expired@);
                let rest = spec_bundle_products(bundle.skip(b as int), cat_dv, expired@);
                &&& (full is Some <==> rest is Some)
                &&& full matches Some(f) ==> (rest matches Some(rr) && f =~= out.deep_view()
                    + rr)
            }),
        decreases bundle.len() - b,
    {
        proof {
            assert(bundle.skip(b as int)[0] == bundle[b as int]);
            assert(bundle.skip(b as int).drop_first() =~= bundle.skip(b as int + 1));
            assert(bundle[b as int] == icfg.plugin@[b as int]@);
        }
        let p = match find_plugin(cat, &icfg.plugin[b]) {
            Some(p) => p,
            None => {
                return Err(Error::new(ErrorKind::Lookup, "Plugin code not found in products."));
            },
        };
        let ghost prev = out.deep_view();
        out.push(
            LicenseProduct {
                code: cat[p].code.clone(),
                fallback_date: expired.clone(),
                paid_up_to: expired.clone(),
                extended: true,
            },
        );
        proof {
            assert(out.deep_view() =~~= prev.push(
                LicenseProductView {
                    code: cat_dv[p as int].code,
                    fallback_date: expired@,
                    paid_up_to: expired@,
                    extended: true,
                },
            ));
        }
        b = b + 1;
    }
    proof {
        assert(bundle.skip(bundle.len() as int) =~= Seq::<Seq<char>>::empty());
    }
    Ok(out)
}

/// Entitlements for explicitly requested plugins, as
/// [`spec_explicit_products`] describes.
#[verifier::loop_isolation(false)]
fn collect_explicit(cat: &Vec<PluginConfig>, reqs: &Vec<ProductRequest>, ide_present: bool) -> (r:
    Result<Vec<LicenseProduct>, Error>)
    ensures
        ({
            let sb = spec_explicit_products(reqs.deep_view(), cat.deep_view(), ide_present);
            &&& r matches Ok(v) ==> sb == Some(v.deep_view())
            &&& r matches Err(e) ==> (sb is None && e.kind == ErrorKind::Lookup)
        }),
{
    let ghost reqs_dv = reqs.deep_view();
    let ghost cat_dv = cat.deep_view();
    let mut out: Vec<LicenseProduct> = Vec::new();
    proof {
        assert(reqs_dv.skip(0) =~= reqs_dv);
        assert(out.deep_view() =~~= Seq::<LicenseProductView>::empty());
    }
    let mut t: usize = 0;
    while t < reqs.len()
        invariant
            t <= reqs_dv.len(),
            ({
                let full = spec_explicit_products(reqs_dv, cat_dv, ide_present);
                let rest = spec_explicit_products(reqs_dv.skip(t as int), cat_dv, ide_present);
                &&& (full is Some <==> rest is Some)
                &&& full matches Some(f) ==> (rest matches Some(rr) && f =~= out.deep_view()
                    + rr)
            }),
        decreases reqs_dv.len() - t,
    {
        proof {
            assert(reqs_dv.skip(t as int)[0] == reqs_dv[t as int]);
            assert(reqs_dv.skip(t as int).drop_first() =~= reqs_dv.skip(t as int + 1));
            assert(reqs_dv[t as int] == reqs@[t as int]@);
        }
        let p = match find_plugin(cat, &reqs[t].code) {
            Some(p) => p,
            None => {
                return Err(Error::new(ErrorKind::Lookup, "Plugin code not found in products."));
            },
        };
        let ghost prev = out.deep_view();
        out.push(
            LicenseProduct {
                code: cat[p].code.clone(),
                fallback_date: reqs[t].expired.clone(),
                paid_up_to: reqs[t].expired.clone(),
                extended: ide_present,
            },
        );
        proof {
            assert(out.deep_view() =~~= prev.push(
                LicenseProductView {
                    code: cat_dv[p as int].code,
                    fallback_date: reqs_dv[t as int].expired,
                    paid_up_to: reqs_dv[t as int].expired,
                    extended: ide_present,
                },
            ));
        }
        t = t + 1;
    }
    proof {
        assert(reqs_dv.skip(reqs_dv.len() as int) =~= Seq::<ProductRequestView>::empty());
    }
    Ok(out)
}

/// De-duplicates by code keeping first occurrences, as [`spec_dedup`]
/// describes.
#[verifier::loop_isolation(false)]
fn dedup_products(merged: &Vec<LicenseProduct>) -> (out: Vec<LicenseProduct>)
    ensures
        out.deep_view() == spec_dedup(merged.deep_view()),
{
    let ghost merged_dv = merged.deep_view();
    let mut out: Vec<LicenseProduct> = Vec::new();
    let mut t: usize = 0;
    proof {
        assert(merged_dv.skip(0) =~= merged_dv);
        assert(out.deep_view() =~~= Seq::<LicenseProductView>::empty());
        assert(spec_code_set(out.deep_view()) =~= Set::<Seq<char>>::empty());
    }
    while t < merged.len()
        invariant
            t <= merged_dv.len(),
            spec_dedup(merged_dv) =~= out.deep_view() + spec_dedup_rec(
                merged_dv.skip(t as int),
                spec_code_set(out.deep_view()),
            ),
        decreases merged_dv.len() - t,
    {
        proof {
            assert(merged_dv.skip(t as int)[0] == merged_dv[t as int]);
            assert(merged_dv.skip(t as int).drop_first() =~= merged_dv.skip(t as int + 1));
            assert(merged_dv[t as int] == merged@[t as int]@);
        }
        let seen = has_code(&out, &merged[t].code);
        if !seen {
            let ghost prev = out.deep_view();
            let copied = clone_product(&merged[t]);
            out.push(copied);
            proof {
                assert(out.deep_view() =~~= prev.push(merged_dv[t as int]));
                lemma_code_set_push(prev, merged_dv[t as int]);
            }
        }
        t = t + 1;
    }
    proof {
        assert(merged_dv.skip(merged_dv.len() as int) =~= Seq::<LicenseProductView>::empty());
        assert(spec_dedup(merged_dv) =~= out.deep_view());
    }
    out
}

/// Resolves the request against the catalog and produces the final,
/// de-duplicated entitlement sequence, exactly as [`spec_build`]
/// describes: the outcome, including which error kind is reported, is
/// pinned for every catalog and every request.
pub fn build_license_products(
    config: &ProductConfig,
    ide: &Option<ProductRequest>,
    plugins: &Option<Vec<ProductRequest>>,
) -> (r: Result<Vec<LicenseProduct>, Error>)
    ensures
        ({
            let sb = spec_build(
                config.ide.deep_view(),
                config.plugin.deep_view(),
                ide.deep_view(),
                plugins.deep_view(),
            );
            &&& r matches Ok(v) ==> sb == Ok::<Seq<LicenseProductView>, ErrorKind>(v.deep_view())
            &&& r matches Err(e) ==> sb == Err::<Seq<LicenseProductView>, ErrorKind>(e.kind)
        }),
{
    let ghost ides_dv = config.ide.deep_view();
    let ghost cat_dv = config.plugin.deep_view();
    if ide.is_none() && plugins.is_none() {
        return Err(
            Error::new(ErrorKind::Input, "The ide and plugins parameters cannot both be null."),
        );
    }
    let ide_is_some = ide.is_some();
    let mut merged: Vec<LicenseProduct> = match ide {
        None => Vec::new(),
        Some(req) => {
            let i = match find_ide(&config.ide, &req.code) {
                Some(i) => i,
                None => {
                    return Err(Error::new(ErrorKind::Lookup, "There is no ide code that matches."));
                },
            };
            match collect_bundle(&config.plugin, &config.ide[i], &req.expired) {
                Ok(v) => v,
                Err(e) => {
                    return Err(e);
                },
            }
        },
    };
    let ghost ps1 = merged.deep_view();
    proof {
        assert(match ide.deep_view() {
            None => ps1 =~= Seq::<LicenseProductView>::empty(),
            Some(reqv) => spec_find_ide(ides_dv, reqv.code) matches Some(icfg)
                && spec_bundle_products(icfg.plugin, cat_dv, reqv.expired) == Some(ps1),
        });
    }
    match plugins {
        None => {},
        Some(reqs) => {
            let mut extra = match collect_explicit(&config.plugin, reqs, ide_is_some) {
                Ok(v) => v,
                Err(e) => {
                    return Err(e);
                },
            };
            let ghost ps2 = extra.deep_view();
            merged.append(&mut extra);
            proof {
                assert(merged.deep_view() =~~= ps1 + ps2);
            }
        },
    }
    proof {
        assert(match plugins.deep_view() {
            None => merged.deep_view() =~= ps1 + Seq::<LicenseProductView>::empty(),
            Some(reqsv) => spec_explicit_products(reqsv, cat_dv, ide_is_some) matches Some(ps2)
                && merged.deep_view() =~= ps1 + ps2,
        });
    }
    Ok(dedup_products(&merged))
}

/// Assembles the license payload against an already-loaded catalog and
/// renders it to its JSON wire form. The entitlements are exactly what
/// [`spec_build`] gives for the catalog and the request; the identity
/// fields are carried over verbatim and every other field takes its
/// static default.
pub fn gen_license_data_with_config(
    config: &ProductConfig,
    ide: Option<ProductRequest>,
    plugins: Option<Vec<ProductRequest>>,
    license_id: String,
    licensee_name: String,
    assignee_name: String,
    assignee_email: String,
) -> (r: Result<String, Error>)
    ensures
        ({
            let sb = spec_build(
                config.ide.deep_view(),
                config.plugin.deep_view(),
                ide.deep_view(),
                plugins.deep_view(),
            );
            &&& r matches Err(e) ==> sb == Err::<Seq<LicenseProductView>, ErrorKind>(e.kind)
            &&& r matches Ok(s) ==> (sb matches Ok(ps) && s@ == spec_license_json(
                spec_license_record(
                    license_id@,
                    licensee_name@,
                    assignee_name@,
                    assignee_email@,
                    ps,
                ),
            ))
        }),
{
    let products = match build_license_products(config, &ide, &plugins) {
        Ok(v) => v,
        Err(e) => {
            return Err(e);
        },
    };
    let mut data = LicenseData::default();
    data.license_id = license_id;
    data.licensee_name = licensee_name;
    data.assignee_name = assignee_name;
    data.assignee_email = assignee_email;
    data.products = products;
    Ok(license_data_to_json(&data))
}

/// Generates the license payload for a request: loads the catalog from
/// the override text where one is supplied (and from the embedded
/// default otherwise), resolves the requested codes, and renders the
/// record. The request must name an IDE or plugins — with neither, the
/// call fails with an input error before any catalog is read; a
/// catalog that cannot be parsed is a catalog error, and an unknown
/// code is a lookup error.
pub fn gen_license_data(
    ide: Option<ProductRequest>,
    plugins: Option<Vec<ProductRequest>>,
    license_id: String,
    licensee_name: String,
    assignee_name: String,
    assignee_email: String,
    products_override: Option<&str>,
) -> (r: Result<String, Error>)
    ensures
        (ide is None && plugins is None) <==> (r matches Err(e) && e.kind == ErrorKind::Input),
        ({
            let chosen = match products_override {
                Some(c) => c@,
                None => spec_default_catalog_text(),
            };
            !(ide is None && plugins is None) ==> match spec_parse_catalog(chosen) {
                None => r matches Err(e) && e.kind == ErrorKind::Catalog,
                Some(cfgv) => match spec_build(
                    cfgv.ide,
                    cfgv.plugin,
                    ide.deep_view(),
                    plugins.deep_view(),
                ) {
                    Err(k) => r matches Err(e) && e.kind == k,
                    Ok(ps) => r matches Ok(s) && s@ == spec_license_json(
                        spec_license_record(
                            license_id@,
                            licensee_name@,
                            assignee_name@,
                            assignee_email@,
                            ps,
                        ),
                    ),
                },
            }
        }),
{
    if ide.is_none() && plugins.is_none() {
        return Err(
            Error::new(ErrorKind::Input, "The ide and plugins parameters cannot both be null."),
        );
    }
    let config = match read_products(products_override) {
        Ok(c) => c,
        Err(e) => {
            return Err(e);
        },
    };
    proof {
        assert(config.deep_view().ide == config.ide.deep_view());
        assert(config.deep_view().plugin == config.plugin.deep_view());
    }
    gen_license_data_with_config(
        &config,
        ide,
        plugins,
        license_id,
        licensee_name,
        assignee_name,
        assignee_email,
    )
}

} // verus!
