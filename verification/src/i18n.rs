//! Locale lookup: message catalogs read from TOML documents, a current
//! language, and placeholder substitution.

use crate::catalog::{same_text, Catalog};
use crate::builtin_catalogs::{EN_SOURCE, ZH_CN_SOURCE};
use crate::text::replace_all;
use vstd::prelude::*;
use vstd::string::StringExecFns;

verus! {

/// A value of the TOML library.
#[verifier::external_type_specification]
#[verifier::external_body]
pub struct ExTomlValue(toml::Value);

/// A TOML value as far as catalogs read it: a string, a table of named
/// values in the order in which the table hands them out, or anything else.
#[derive(Debug)]
pub enum TomlNode {
    Text(String),
    Table(Vec<(String, TomlNode)>),
    Other,
}

/// The tree that a value of the TOML library holds: a string as `Text`, a
/// table as `Table` with its entries in the order of its iterator, each
/// with the tree of its value, and every other kind of value as `Other`.
pub uninterp spec fn tree_of(value: toml::Value) -> TomlNode;

/// The tree that a text parses to as a TOML document, `None` where the text
/// is not a TOML document.
pub uninterp spec fn document_of(content: Seq<char>) -> Option<TomlNode>;

/// Parses `content` with `toml::Value`'s `FromStr`. Trusted: the value's
/// tree depends on the text alone, and there is none exactly where the
/// parser reports an error.
#[verifier::external_body]
fn parse_value(content: &str) -> (r: Option<toml::Value>)
    ensures
        match r {
            Some(value) => document_of(content@) == Some(tree_of(value)),
            None => document_of(content@) is None,
        },
{
    content.parse::<toml::Value>().ok()
}

/// Copies a `toml::Value` into a tree, variant by variant: strings and
/// tables keep what they hold, a table's entries in the order of its
/// iterator; every other kind of value becomes `Other`. Trusted: the copy
/// is the tree of the value.
#[verifier::external_body]
fn node_of(value: &toml::Value) -> (r: TomlNode)
    ensures
        r == tree_of(*value),
{
    match value {
        toml::Value::String(text) => TomlNode::Text(text.clone()),
        toml::Value::Table(table) => TomlNode::Table(
            table.iter().map(|(key, child)| (key.clone(), node_of(child))).collect(),
        ),
        _ => TomlNode::Other,
    }
}

/// Parses a text as a TOML document.
pub fn parse_document(content: &str) -> (r: Option<TomlNode>)
    ensures
        r == document_of(content@),
{
    match parse_value(content) {
        Some(value) => Some(node_of(&value)),
        None => None,
    }
}

/// The code of the language that every lookup falls back to.
pub open spec fn default_language_code() -> Seq<char> {
    "zh-CN"@
}

/// The key of an entry named `key` inside the table found under `prefix`:
/// the two joined by a dot, or `key` alone at the top.
pub open spec fn child_key(prefix: Seq<char>, key: Seq<char>) -> Seq<char> {
    if prefix.len() == 0 {
        key
    } else {
        prefix + "."@ + key
    }
}

impl TomlNode {
    /// The number of entries of a table, zero for anything else.
    pub open spec fn width(self) -> nat {
        match self {
            TomlNode::Table(entries) => entries@.len(),
            _ => 0,
        }
    }
}

/// `acc` after filing every string found in `node` under its dotted path,
/// `prefix` being the path of `node` itself. Entries of a table are taken in
/// order from place `from` on; values that are neither strings nor tables
/// are passed over.
pub open spec fn flattened(
    prefix: Seq<char>,
    node: TomlNode,
    from: int,
    acc: Map<Seq<char>, Seq<char>>,
) -> Map<Seq<char>, Seq<char>>
    decreases node, node.width() - from,
{
    match node {
        TomlNode::Text(text) => acc.insert(prefix, text@),
        TomlNode::Table(entries) => {
            if 0 <= from < entries@.len() {
                let after_entry = flattened(
                    child_key(prefix, entries@[from].0@),
                    entries@[from].1,
                    0,
                    acc,
                );
                flattened(prefix, node, from + 1, after_entry)
            } else {
                acc
            }
        },
        TomlNode::Other => acc,
    }
}

/// The catalog that a TOML document holds; empty where the text is not a
/// TOML document.
pub open spec fn catalog_of(content: Seq<char>) -> Map<Seq<char>, Seq<char>> {
    match document_of(content) {
        Some(node) => flattened(Seq::<char>::empty(), node, 0, Map::empty()),
        None => Map::empty(),
    }
}

/// Files every string of `value` in `out` under its dotted path.
pub fn flatten(prefix: &str, value: &TomlNode, out: &mut Catalog)
    ensures
        final(out)@ == flattened(prefix@, *value, 0, old(out)@),
    decreases value,
{
    match value {
        TomlNode::Table(entries) => {
            let mut i: usize = 0;
            while i < entries.len()
                invariant
                    *value == TomlNode::Table(*entries),
                    i <= entries@.len(),
                    flattened(prefix@, *value, i as int, out@) == flattened(
                        prefix@,
                        *value,
                        0,
                        old(out)@,
                    ),
                decreases entries@.len() - i,
            {
                let name = entries[i].0.as_str();
                let next_prefix = if prefix.is_empty() {
                    String::from_str(name)
                } else {
                    String::from_str(prefix).concat(".").concat(name)
                };
                assert(next_prefix@ =~= child_key(prefix@, name@));
                flatten(next_prefix.as_str(), &entries[i].1, out);
                i += 1;
            }
        },
        TomlNode::Text(text) => {
            out.insert(String::from_str(prefix), text.clone());
        },
        TomlNode::Other => {},
    }
}

/// The catalog of a tree: its strings under their dotted paths.
pub fn catalog_from_document(document: Option<TomlNode>) -> (r: Catalog)
    ensures
        r@ == match document {
            Some(node) => flattened(Seq::<char>::empty(), node, 0, Map::empty()),
            None => Map::<Seq<char>, Seq<char>>::empty(),
        },
{
    let mut catalog = Catalog::new();
    match document {
        Some(node) => {
            let top = String::new();
            flatten(top.as_str(), &node, &mut catalog);
        },
        None => {},
    }
    catalog
}

/// Reads one language's catalog from a TOML document. A text that cannot be
/// parsed gives the empty catalog, so that every lookup falls back.
pub fn parse_lang(content: &str) -> (r: Catalog)
    ensures
        r@ == catalog_of(content@),
{
    catalog_from_document(parse_document(content))
}

/// The catalogs of the languages on offer.
#[derive(Debug, Clone)]
pub struct Store {
    pub zh_cn: Catalog,
    pub en: Catalog,
}

impl Store {
    /// Whether `lang` is the code of a language on offer.
    pub open spec fn has(lang: Seq<char>) -> bool {
        lang == "zh-CN"@ || lang == "en"@
    }

    /// The messages of a language; none for an unknown code.
    pub open spec fn messages(self, lang: Seq<char>) -> Map<Seq<char>, Seq<char>> {
        if lang == "zh-CN"@ {
            self.zh_cn@
        } else if lang == "en"@ {
            self.en@
        } else {
            Map::empty()
        }
    }

    /// What `key` resolves to in the language `lang`: its message there,
    /// else its message in the default language, else the key itself.
    pub open spec fn resolved(self, lang: Seq<char>, key: Seq<char>) -> Seq<char> {
        if self.messages(lang).contains_key(key) {
            self.messages(lang)[key]
        } else if self.messages(default_language_code()).contains_key(key) {
            self.messages(default_language_code())[key]
        } else {
            key
        }
    }

    /// What `key` resolves to in the language `lang`, with the placeholder of
    /// one argument replaced by its value.
    pub open spec fn resolved_with(
        self,
        lang: Seq<char>,
        key: Seq<char>,
        name: Seq<char>,
        value: Seq<char>,
    ) -> Seq<char> {
        crate::text::replaced(self.resolved(lang, key), placeholder(name), value)
    }

    /// The store with the catalogs read from two TOML documents.
    pub fn from_sources(zh_cn: &str, en: &str) -> (r: Store)
        ensures
            r.zh_cn@ == catalog_of(zh_cn@),
            r.en@ == catalog_of(en@),
    {
        Store { zh_cn: parse_lang(zh_cn), en: parse_lang(en) }
    }

    pub fn contains_key(&self, lang: &str) -> (r: bool)
        ensures
            r == Store::has(lang@),
    {
        same_text(lang, "zh-CN") || same_text(lang, "en")
    }

    /// The message of `key` in the language `lang`, if that language has it.
    pub fn lookup(&self, lang: &str, key: &str) -> (r: Option<String>)
        ensures
            self.messages(lang@).contains_key(key@) ==> (r matches Some(m) && m@ == self.messages(
                lang@,
            )[key@]),
            !self.messages(lang@).contains_key(key@) ==> r is None,
    {
        if same_text(lang, "zh-CN") {
            self.zh_cn.get(key)
        } else if same_text(lang, "en") {
            self.en.get(key)
        } else {
            None
        }
    }
}

/// The store with the built-in catalogs.
pub fn load_store() -> (r: Store)
    ensures
        r.zh_cn@ == catalog_of(ZH_CN_SOURCE@),
        r.en@ == catalog_of(EN_SOURCE@),
{
    Store::from_sources(ZH_CN_SOURCE, EN_SOURCE)
}

/// The token that stands for the argument `name` in a message.
pub open spec fn placeholder(name: Seq<char>) -> Seq<char> {
    "%{"@ + name + "}"@
}

/// `text` after substituting the first `upto` arguments, one after the
/// other: each pass replaces every placeholder of its argument in what the
/// passes before it left.
pub open spec fn filled(text: Seq<char>, args: Seq<(Seq<char>, Seq<char>)>, upto: int) -> Seq<
    char,
>
    decreases upto,
{
    if upto <= 0 || upto > args.len() {
        text
    } else {
        crate::text::replaced(
            filled(text, args, upto - 1),
            placeholder(args[upto - 1].0),
            args[upto - 1].1,
        )
    }
}

/// The arguments of a message as plain sequences: each name with its value.
pub open spec fn argument_views(args: Seq<(&str, &str)>) -> Seq<(Seq<char>, Seq<char>)> {
    Seq::new(args.len(), |i: int| (args[i].0@, args[i].1@))
}

/// Message lookup for a current language.
#[derive(Debug, Clone)]
pub struct I18n {
    current_lang: String,
    store: Store,
}

impl I18n {
    /// The code of the current language.
    pub closed spec fn language(self) -> Seq<char> {
        self.current_lang@
    }

    /// The catalogs that lookups read.
    pub closed spec fn catalogs(self) -> Store {
        self.store
    }

    /// The current language is always one on offer.
    pub open spec fn wf(self) -> bool {
        Store::has(self.language())
    }

    /// What `key` resolves to in the current language.
    pub open spec fn resolved(self, key: Seq<char>) -> Seq<char> {
        self.catalogs().resolved(self.language(), key)
    }

    /// Lookup over the built-in catalogs, in the language `lang`, or in the
    /// default language where `lang` is not on offer.
    pub fn new(lang: &str) -> (r: I18n)
        ensures
            r.wf(),
            r.language() == if Store::has(lang@) {
                lang@
            } else {
                default_language_code()
            },
            r.catalogs().zh_cn@ == catalog_of(ZH_CN_SOURCE@),
            r.catalogs().en@ == catalog_of(EN_SOURCE@),
    {
        I18n::with_store(lang, load_store())
    }

    /// Lookup over the given catalogs, in the language `lang`, or in the
    /// default language where `lang` is not on offer.
    pub fn with_store(lang: &str, store: Store) -> (r: I18n)
        ensures
            r.wf(),
            r.language() == if Store::has(lang@) {
                lang@
            } else {
                default_language_code()
            },
            r.catalogs() == store,
    {
        let initial = if store.contains_key(lang) {
            String::from_str(lang)
        } else {
            String::from_str("zh-CN")
        };
        I18n { current_lang: initial, store }
    }

    pub fn current_language(&self) -> (r: String)
        ensures
            r@ == self.language(),
    {
        self.current_lang.clone()
    }

    /// Makes `lang` the current language if it is on offer; an unknown code
    /// changes nothing.
    pub fn set_language(&mut self, lang: &str)
        ensures
            old(self).wf() ==> final(self).wf(),
            final(self).catalogs() == old(self).catalogs(),
            final(self).language() == if Store::has(lang@) {
                lang@
            } else {
                old(self).language()
            },
    {
        if self.store.contains_key(lang) {
            self.current_lang = String::from_str(lang);
        }
    }

    /// The message of `key` in the current language, without arguments.
    pub fn t(&self, key: &str) -> (r: String)
        ensures
            r@ == self.resolved(key@),
    {
        match self.lookup(self.current_lang.as_str(), key) {
            Some(message) => message,
            None => match self.lookup("zh-CN", key) {
                Some(message) => message,
                None => String::from_str(key),
            },
        }
    }

    /// The message of `key` in the current language, with every `%{name}`
    /// replaced by the value given for `name`; the arguments are substituted
    /// one after the other, in the order given.
    pub fn tr(&self, key: &str, args: &[(&str, &str)]) -> (r: String)
        ensures
            r@ == filled(self.resolved(key@), argument_views(args@), args@.len() as int),
    {
        let mut text = self.t(key);
        let mut i: usize = 0;
        while i < args.len()
            invariant
                i <= args@.len(),
                text@ == filled(self.resolved(key@), argument_views(args@), i as int),
            decreases args@.len() - i,
        {
            let token = String::from_str("%{").concat(args[i].0).concat("}");
            assert(token@ =~= placeholder(argument_views(args@)[i as int].0));
            text = replace_all(text.as_str(), token.as_str(), args[i].1);
            i += 1;
        }
        text
    }

    /// The message of `key` in the current language, with every
    /// `%{name}` replaced by `value`.
    pub fn tr_one(&self, key: &str, name: &str, value: &str) -> (r: String)
        ensures
            r@ == self.catalogs().resolved_with(self.language(), key@, name@, value@),
    {
        let text = self.t(key);
        let token = String::from_str("%{").concat(name).concat("}");
        assert(token@ =~= placeholder(name@));
        replace_all(text.as_str(), token.as_str(), value)
    }

    /// The languages on offer, each with its code and its own name.
    pub fn available_languages(&self) -> (r: Vec<(&'static str, &'static str)>)
        ensures
            r@.len() == 2,
            r@[0].0@ == "zh-CN"@ && r@[0].1@ == "简体中文"@,
            r@[1].0@ == "en"@ && r@[1].1@ == "English"@,
    {
        let mut languages: Vec<(&'static str, &'static str)> = Vec::new();
        languages.push(("zh-CN", "简体中文"));
        languages.push(("en", "English"));
        languages
    }

    /// The message of `key` in the language `lang`, if that language has it.
    pub fn lookup(&self, lang: &str, key: &str) -> (r: Option<String>)
        ensures
            self.catalogs().messages(lang@).contains_key(key@) ==> (r matches Some(m) && m@
                == self.catalogs().messages(lang@)[key@]),
            !self.catalogs().messages(lang@).contains_key(key@) ==> r is None,
    {
        self.store.lookup(lang, key)
    }
}

/// A key that the current language lacks resolves to its message in the
/// default language, and a key that both lack resolves to itself.
pub proof fn lemma_lookup_falls_back(i18n: I18n, key: Seq<char>)
    requires
        !i18n.catalogs().messages(i18n.language()).contains_key(key),
    ensures
        i18n.catalogs().messages(default_language_code()).contains_key(key) ==> i18n.resolved(key)
            == i18n.catalogs().messages(default_language_code())[key],
        !i18n.catalogs().messages(default_language_code()).contains_key(key) ==> i18n.resolved(
            key,
        ) == key,
{
}

} // verus!
