//! The product catalog: IDE and plugin entries loaded from an override
//! source or from the embedded default, and the schema that both must
//! follow.
//!
//! A catalog document is TOML text with two top-level arrays:
//!
//! ```text
//! ide    = [ { name, code, plugin = [codes...] }, ... ]
//! plugin = [ { name, code }, ... ]
//! ```
//!
//! The generic TOML parsing is the toml crate's work. Its result is
//! modelled as a document tree of text, lists and tables
//! ([`TomlNodeView`]); the parse is a named function of the text alone
//! ([`spec_toml_doc`]), the contents of an opaque parsed value are
//! named by [`spec_value_model`], and the trusted wrappers of the
//! methods the walk calls speak over those names. The walk from the
//! document to the typed catalog, and every schema check, is verified
//! code whose result is pinned: parsing succeeds exactly on documents
//! matching the schema, and then yields exactly the catalog the
//! document describes.

use vstd::prelude::*;

use crate::error::{Error, ErrorKind};

verus! {

/// An IDE entry of the catalog: a display name, a product code, and the
/// ordered list of plugin codes the IDE bundles.
#[derive(Debug)]
pub struct IdeConfig {
    pub name: String,
    pub code: String,
    pub plugin: Vec<String>,
}

/// The mathematical image of an [`IdeConfig`].
pub struct IdeConfigView {
    pub name: Seq<char>,
    pub code: Seq<char>,
    pub plugin: Seq<Seq<char>>,
}

impl View for IdeConfig {
    type V = IdeConfigView;

    open spec fn view(&self) -> IdeConfigView {
        IdeConfigView { name: self.name@, code: self.code@, plugin: self.plugin.deep_view() }
    }
}

impl DeepView for IdeConfig {
    type V = IdeConfigView;

    open spec fn deep_view(&self) -> IdeConfigView {
        self.view()
    }
}

/// A plugin entry of the catalog: a display name and a product code.
#[derive(Debug)]
pub struct PluginConfig {
    pub name: String,
    pub code: String,
}

/// The mathematical image of a [`PluginConfig`].
pub struct PluginConfigView {
    pub name: Seq<char>,
    pub code: Seq<char>,
}

impl View for PluginConfig {
    type V = PluginConfigView;

    open spec fn view(&self) -> PluginConfigView {
        PluginConfigView { name: self.name@, code: self.code@ }
    }
}

impl DeepView for PluginConfig {
    type V = PluginConfigView;

    open spec fn deep_view(&self) -> PluginConfigView {
        self.view()
    }
}

/// A loaded catalog: the IDE entries and the plugin entries, in source
/// order. Lookups take the first entry with a matching code, so
/// duplicate codes resolve to the earliest occurrence.
#[derive(Debug)]
pub struct ProductConfig {
    pub ide: Vec<IdeConfig>,
    pub plugin: Vec<PluginConfig>,
}

/// The mathematical image of a [`ProductConfig`].
pub struct ProductConfigView {
    pub ide: Seq<IdeConfigView>,
    pub plugin: Seq<PluginConfigView>,
}

impl View for ProductConfig {
    type V = ProductConfigView;

    open spec fn view(&self) -> ProductConfigView {
        ProductConfigView { ide: self.ide.deep_view(), plugin: self.plugin.deep_view() }
    }
}

impl DeepView for ProductConfig {
    type V = ProductConfigView;

    open spec fn deep_view(&self) -> ProductConfigView {
        self.view()
    }
}

/// The model of a parsed TOML document value, restricted to what the
/// catalog schema reads: text, lists and tables. Any other value kind
/// — integer, float, boolean, datetime — appears as `Other`, which no
/// schema check accepts.
pub enum TomlNodeView {
    Text(Seq<char>),
    List(Seq<TomlNodeView>),
    Table(Seq<(Seq<char>, TomlNodeView)>),
    Other,
}

/// What the toml crate's document parse yields for the given text:
/// `None` where the text is not valid TOML, else the document's model.
/// A function of the text alone — toml's tables are ordered maps, so
/// the model is deterministic.
pub uninterp spec fn spec_toml_doc(s: Seq<char>) -> Option<TomlNodeView>;

/// What an opaque parsed toml `Value` holds, as a [`TomlNodeView`].
/// The trusted wrappers of every `Value` method the walk calls speak
/// over this name.
pub uninterp spec fn spec_value_model(v: toml::Value) -> TomlNodeView;

/// Declares toml's `Value` so that parsed documents can flow through
/// verified code; the value itself stays opaque and is read only
/// through [`spec_value_model`].
#[verifier::external_type_specification]
#[verifier::external_body]
pub struct ExTomlValue(toml::Value);

/// The value of the first pair carrying `key`, if any. Table keys are
/// unique, so this is plain map lookup.
pub open spec fn spec_lookup(pairs: Seq<(Seq<char>, TomlNodeView)>, key: Seq<char>) -> Option<
    TomlNodeView,
>
    decreases pairs.len(),
{
    if pairs.len() == 0 {
        None
    } else if pairs[0].0 == key {
        Some(pairs[0].1)
    } else {
        spec_lookup(pairs.drop_first(), key)
    }
}

/// The entry for `key`: `None` where the node is not a table or has no
/// such key.
pub open spec fn spec_get(n: TomlNodeView, key: Seq<char>) -> Option<TomlNodeView> {
    match n {
        TomlNodeView::Table(pairs) => spec_lookup(pairs, key),
        _ => None,
    }
}

/// Relies on the toml crate's `FromStr` for `Value`: parses TOML text
/// into a document value, failing exactly on text that is not valid
/// TOML; the result's contents are the named model of the text.
#[verifier::external_body]
fn toml_parse(s: &str) -> (r: Option<toml::Value>)
    ensures
        match r {
            Some(v) => spec_toml_doc(s@) == Some(spec_value_model(v)),
            None => spec_toml_doc(s@) is None,
        },
{
    s.parse::<toml::Value>().ok()
}

/// Relies on toml's `Value::get` with a string index: the entry under
/// the key where the value is a table holding it, `None` otherwise.
#[verifier::external_body]
fn toml_get<'a>(v: &'a toml::Value, key: &str) -> (r: Option<&'a toml::Value>)
    ensures
        match spec_get(spec_value_model(*v), key@) {
            Some(m) => r matches Some(w) && spec_value_model(*w) == m,
            None => r is None,
        },
{
    v.get(key)
}

/// Relies on toml's `Value::as_array`: the elements where the value is
/// an array, `None` otherwise; each element's contents are the
/// corresponding element of the model list.
#[verifier::external_body]
fn toml_as_array<'a>(v: &'a toml::Value) -> (r: Option<&'a Vec<toml::Value>>)
    ensures
        match spec_value_model(*v) {
            TomlNodeView::List(items) => r matches Some(a) && a@.len() == items.len() && (forall|
                i: int,
            |
                0 <= i < items.len() ==> spec_value_model(#[trigger] a@[i]) == items[i]),
            _ => r is None,
        },
{
    v.as_array()
}

/// Relies on toml's `Value::as_str`: the text where the value is a
/// string, `None` otherwise.
#[verifier::external_body]
fn toml_as_str(v: &toml::Value) -> (r: Option<String>)
    ensures
        match spec_value_model(*v) {
            TomlNodeView::Text(t) => r matches Some(s) && s@ == t,
            _ => r is None,
        },
{
    match v.as_str() {
        Some(s) => Some(s.to_owned()),
        None => None,
    }
}

/// The text under `key` in a table node, if the entry exists and is
/// text.
pub open spec fn spec_text_field(n: TomlNodeView, key: Seq<char>) -> Option<Seq<char>> {
    match spec_get(n, key) {
        Some(TomlNodeView::Text(t)) => Some(t),
        _ => None,
    }
}

/// The texts of a list whose elements are all text nodes; `None` where
/// some element is not text.
pub open spec fn spec_text_list(items: Seq<TomlNodeView>) -> Option<Seq<Seq<char>>>
    decreases items.len(),
{
    if items.len() == 0 {
        Some(Seq::empty())
    } else {
        match items[0] {
            TomlNodeView::Text(t) => match spec_text_list(items.drop_first()) {
                Some(rest) => Some(seq![t] + rest),
                None => None,
            },
            _ => None,
        }
    }
}

/// The IDE entry a node describes: a table with text `name` and `code`
/// fields and a `plugin` list of texts. `None` on any deviation.
pub open spec fn spec_ide_entry(n: TomlNodeView) -> Option<IdeConfigView> {
    match spec_text_field(n, "name"@) {
        None => None,
        Some(name) => match spec_text_field(n, "code"@) {
            None => None,
            Some(code) => match spec_get(n, "plugin"@) {
                Some(TomlNodeView::List(items)) => match spec_text_list(items) {
                    Some(plugin) => Some(IdeConfigView { name, code, plugin }),
                    None => None,
                },
                _ => None,
            },
        },
    }
}

/// The plugin entry a node describes: a table with text `name` and
/// `code` fields. `None` on any deviation.
pub open spec fn spec_plugin_entry(n: TomlNodeView) -> Option<PluginConfigView> {
    match spec_text_field(n, "name"@) {
        None => None,
        Some(name) => match spec_text_field(n, "code"@) {
            None => None,
            Some(code) => Some(PluginConfigView { name, code }),
        },
    }
}

/// The IDE entries of a list of nodes, in order; `None` where some
/// element is not a valid entry.
pub open spec fn spec_ide_entries(items: Seq<TomlNodeView>) -> Option<Seq<IdeConfigView>>
    decreases items.len(),
{
    if items.len() == 0 {
        Some(Seq::empty())
    } else {
        match spec_ide_entry(items[0]) {
            None => None,
            Some(e) => match spec_ide_entries(items.drop_first()) {
                None => None,
                Some(rest) => Some(seq![e] + rest),
            },
        }
    }
}

/// The plugin entries of a list of nodes, in order; `None` where some
/// element is not a valid entry.
pub open spec fn spec_plugin_entries(items: Seq<TomlNodeView>) -> Option<Seq<PluginConfigView>>
    decreases items.len(),
{
    if items.len() == 0 {
        Some(Seq::empty())
    } else {
        match spec_plugin_entry(items[0]) {
            None => None,
            Some(e) => match spec_plugin_entries(items.drop_first()) {
                None => None,
                Some(rest) => Some(seq![e] + rest),
            },
        }
    }
}

/// The catalog a document describes: top-level `ide` and `plugin`
/// lists whose entries all match the schema. `None` on any deviation.
pub open spec fn spec_catalog_of_doc(doc: TomlNodeView) -> Option<ProductConfigView> {
    match spec_get(doc, "ide"@) {
        Some(TomlNodeView::List(ide_items)) => match spec_get(doc, "plugin"@) {
            Some(TomlNodeView::List(plugin_items)) => match spec_ide_entries(ide_items) {
                None => None,
                Some(ide) => match spec_plugin_entries(plugin_items) {
                    None => None,
                    Some(plugin) => Some(ProductConfigView { ide, plugin }),
                },
            },
            _ => None,
        },
        _ => None,
    }
}

/// What parsing catalog text yields: the typed catalog where the text
/// is TOML matching the schema, `None` otherwise.
pub open spec fn spec_parse_catalog(s: Seq<char>) -> Option<ProductConfigView> {
    match spec_toml_doc(s) {
        None => None,
        Some(doc) => spec_catalog_of_doc(doc),
    }
}

/// Reads one catalog string field out of a table value, as
/// [`spec_text_field`] describes.
fn read_string_field(v: &toml::Value, key: &str) -> (r: Result<String, Error>)
    ensures
        match spec_text_field(spec_value_model(*v), key@) {
            Some(t) => r matches Ok(s) && s@ == t,
            None => r matches Err(e) && e.kind == ErrorKind::Catalog,
        },
{
    match toml_get(v, key) {
        None => Err(Error::new(ErrorKind::Catalog, "Failed to parse TOML")),
        Some(field) => match toml_as_str(field) {
            None => Err(Error::new(ErrorKind::Catalog, "Failed to parse TOML")),
            Some(s) => Ok(s),
        },
    }
}

/// Reads one IDE entry out of a table value, as [`spec_ide_entry`]
/// describes.
#[verifier::loop_isolation(false)]
fn read_ide_entry(v: &toml::Value) -> (r: Result<IdeConfig, Error>)
    ensures
        match spec_ide_entry(spec_value_model(*v)) {
            Some(ev) => r matches Ok(c) && c.deep_view() == ev,
            None => r matches Err(e) && e.kind == ErrorKind::Catalog,
        },
{
    let name = match read_string_field(v, "name") {
        Ok(s) => s,
        Err(e) => {
            return Err(e);
        },
    };
    let code = match read_string_field(v, "code") {
        Ok(s) => s,
        Err(e) => {
            return Err(e);
        },
    };
    let plugin_val = match toml_get(v, "plugin") {
        Some(p) => p,
        None => {
            return Err(Error::new(ErrorKind::Catalog, "Failed to parse TOML"));
        },
    };
    let plugin_arr = match toml_as_array(plugin_val) {
        Some(a) => a,
        None => {
            return Err(Error::new(ErrorKind::Catalog, "Failed to parse TOML"));
        },
    };
    let ghost items = spec_value_model(*plugin_val)->List_0;
    let mut plugin: Vec<String> = Vec::new();
    proof {
        assert(items.skip(0) =~= items);
        assert(plugin.deep_view() =~~= Seq::<Seq<char>>::empty());
    }
    let mut i: usize = 0;
    while i < plugin_arr.len()
        invariant
            i <= items.len(),
            ({
                let full = spec_text_list(items);
                let rest = spec_text_list(items.skip(i as int));
                &&& (full is Some <==> rest is Some)
                &&& full matches Some(f) ==> (rest matches Some(rr) && f =~= plugin.deep_view()
                    + rr)
            }),
        decreases items.len() - i,
    {
        proof {
            assert(items.skip(i as int)[0] == items[i as int]);
            assert(items.skip(i as int).drop_first() =~= items.skip(i as int + 1));
        }
        match toml_as_str(&plugin_arr[i]) {
            Some(s) => {
                let ghost prev = plugin.deep_view();
                let ghost text = s@;
                plugin.push(s);
                proof {
                    assert(plugin.deep_view() =~~= prev.push(text));
                }
            },
            None => {
                return Err(Error::new(ErrorKind::Catalog, "Failed to parse TOML"));
            },
        }
        i = i + 1;
    }
    proof {
        assert(items.skip(items.len() as int) =~= Seq::<TomlNodeView>::empty());
    }
    Ok(IdeConfig { name, code, plugin })
}

/// Reads one plugin entry out of a table value, as
/// [`spec_plugin_entry`] describes.
fn read_plugin_entry(v: &toml::Value) -> (r: Result<PluginConfig, Error>)
    ensures
        match spec_plugin_entry(spec_value_model(*v)) {
            Some(ev) => r matches Ok(c) && c.deep_view() == ev,
            None => r matches Err(e) && e.kind == ErrorKind::Catalog,
        },
{
    let name = match read_string_field(v, "name") {
        Ok(s) => s,
        Err(e) => {
            return Err(e);
        },
    };
    let code = match read_string_field(v, "code") {
        Ok(s) => s,
        Err(e) => {
            return Err(e);
        },
    };
    Ok(PluginConfig { name, code })
}

/// Parses catalog text into a [`ProductConfig`], exactly as
/// [`spec_parse_catalog`] describes: any deviation from the schema —
/// text that is not TOML, a missing `ide` or `plugin` array, an entry
/// without its `name`, `code` or `plugin` field, or a field of the
/// wrong type — is a catalog error, and a conforming document yields
/// exactly the catalog it describes.
#[verifier::loop_isolation(false)]
pub fn parse_product_config(content: &str) -> (r: Result<ProductConfig, Error>)
    ensures
        match spec_parse_catalog(content@) {
            Some(v) => r matches Ok(c) && c.deep_view() == v,
            None => r matches Err(e) && e.kind == ErrorKind::Catalog,
        },
{
    let root = match toml_parse(content) {
        Some(v) => v,
        None => {
            return Err(Error::new(ErrorKind::Catalog, "Failed to parse TOML"));
        },
    };
    let ghost doc = spec_value_model(root);
    let ide_arr = match toml_get(&root, "ide") {
        Some(v) => match toml_as_array(v) {
            Some(a) => a,
            None => {
                return Err(Error::new(ErrorKind::Catalog, "Failed to parse TOML"));
            },
        },
        None => {
            return Err(Error::new(ErrorKind::Catalog, "Failed to parse TOML"));
        },
    };
    let ghost ide_items = spec_get(doc, "ide"@)->Some_0->List_0;
    let plugin_arr = match toml_get(&root, "plugin") {
        Some(v) => match toml_as_array(v) {
            Some(a) => a,
            None => {
                return Err(Error::new(ErrorKind::Catalog, "Failed to parse TOML"));
            },
        },
        None => {
            return Err(Error::new(ErrorKind::Catalog, "Failed to parse TOML"));
        },
    };
    let ghost plugin_items = spec_get(doc, "plugin"@)->Some_0->List_0;

    let mut ide: Vec<IdeConfig> = Vec::new();
    proof {
        assert(ide_items.skip(0) =~= ide_items);
        assert(ide.deep_view() =~~= Seq::<IdeConfigView>::empty());
    }
    let mut i: usize = 0;
    while i < ide_arr.len()
        invariant
            i <= ide_items.len(),
            ({
                let full = spec_ide_entries(ide_items);
                let rest = spec_ide_entries(ide_items.skip(i as int));
                &&& (full is Some <==> rest is Some)
                &&& full matches Some(f) ==> (rest matches Some(rr) && f =~= ide.deep_view()
                    + rr)
            }),
        decreases ide_items.len() - i,
    {
        proof {
            assert(ide_items.skip(i as int)[0] == ide_items[i as int]);
            assert(ide_items.skip(i as int).drop_first() =~= ide_items.skip(i as int + 1));
        }
        match read_ide_entry(&ide_arr[i]) {
            Ok(entry) => {
                let ghost prev = ide.deep_view();
                let ghost ev = entry.deep_view();
                ide.push(entry);
                proof {
                    assert(ide.deep_view() =~~= prev.push(ev));
                }
            },
            Err(e) => {
                return Err(e);
            },
        }
        i = i + 1;
    }
    proof {
        assert(ide_items.skip(ide_items.len() as int) =~= Seq::<TomlNodeView>::empty());
    }

    let mut plugin: Vec<PluginConfig> = Vec::new();
    proof {
        assert(plugin_items.skip(0) =~= plugin_items);
        assert(plugin.deep_view() =~~= Seq::<PluginConfigView>::empty());
    }
    let mut j: usize = 0;
    while j < plugin_arr.len()
        invariant
            j <= plugin_items.len(),
            ({
                let full = spec_plugin_entries(plugin_items);
                let rest = spec_plugin_entries(plugin_items.skip(j as int));
                &&& (full is Some <==> rest is Some)
                &&& full matches Some(f) ==> (rest matches Some(rr) && f =~= plugin.deep_view()
                    + rr)
            }),
        decreases plugin_items.len() - j,
    {
        proof {
            assert(plugin_items.skip(j as int)[0] == plugin_items[j as int]);
            assert(plugin_items.skip(j as int).drop_first() =~= plugin_items.skip(j as int + 1));
        }
        match read_plugin_entry(&plugin_arr[j]) {
            Ok(entry) => {
                let ghost prev = plugin.deep_view();
                let ghost ev = entry.deep_view();
                plugin.push(entry);
                proof {
                    assert(plugin.deep_view() =~~= prev.push(ev));
                }
            },
            Err(e) => {
                return Err(e);
            },
        }
        j = j + 1;
    }
    proof {
        assert(plugin_items.skip(plugin_items.len() as int) =~= Seq::<TomlNodeView>::empty());
    }
    Ok(ProductConfig { ide, plugin })
}

/// The text of the catalog bundled with the program.
pub open spec fn spec_default_catalog_text() -> Seq<char> {
    "[[ide]]\nname = \"IntelliJ IDEA\"\ncode = \"II\"\nplugin = [\"PSW\", \"PDB\"]\n\n[[ide]]\nname = \"PyCharm\"\ncode = \"PC\"\nplugin = [\"PDB\"]\n\n[[ide]]\nname = \"GoLand\"\ncode = \"GO\"\nplugin = []\n\n[[plugin]]\nname = \"Power Support\"\ncode = \"PSW\"\n\n[[plugin]]\nname = \"Database Helper\"\ncode = \"PDB\"\n\n[[plugin]]\nname = \"Rainbow Brackets\"\ncode = \"RBR\"\n"@
}

/// The read-only catalog bundled with the program, used when no
/// override source is supplied: always present, with exactly the text
/// of [`spec_default_catalog_text`].
pub fn get_products_list_default() -> (r: Option<&'static str>)
    ensures
        r matches Some(s) && s@ == spec_default_catalog_text(),
{
    Some(
        "[[ide]]\nname = \"IntelliJ IDEA\"\ncode = \"II\"\nplugin = [\"PSW\", \"PDB\"]\n\n[[ide]]\nname = \"PyCharm\"\ncode = \"PC\"\nplugin = [\"PDB\"]\n\n[[ide]]\nname = \"GoLand\"\ncode = \"GO\"\nplugin = []\n\n[[plugin]]\nname = \"Power Support\"\ncode = \"PSW\"\n\n[[plugin]]\nname = \"Database Helper\"\ncode = \"PDB\"\n\n[[plugin]]\nname = \"Rainbow Brackets\"\ncode = \"RBR\"\n",
    )
}

/// Loads the catalog: from the override text where one is supplied,
/// and from the embedded default otherwise. Whichever source is
/// chosen, the result is exactly its parse under
/// [`spec_parse_catalog`]: the typed catalog where the source matches
/// the schema, a catalog error otherwise.
pub fn read_products(override_source: Option<&str>) -> (r: Result<ProductConfig, Error>)
    ensures
        ({
            let chosen = match override_source {
                Some(c) => c@,
                None => spec_default_catalog_text(),
            };
            match spec_parse_catalog(chosen) {
                Some(v) => r matches Ok(c) && c.deep_view() == v,
                None => r matches Err(e) && e.kind == ErrorKind::Catalog,
            }
        }),
{
    match override_source {
        Some(content) => parse_product_config(content),
        None => parse_product_config(get_products_list_default().unwrap()),
    }
}

} // verus!
