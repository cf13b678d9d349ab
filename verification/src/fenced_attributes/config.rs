//! The attribute block as a table of loosely typed values, and the loader
//! that reads one from text.

use vstd::prelude::*;

verus! {

/// One element of a list value.
#[derive(Debug, PartialEq, Eq)]
pub enum ConfigItem {
    /// A string, number or boolean: its text, and its reading as a flag if
    /// it has one.
    Scalar { text: String, flag: Option<bool> },
    /// An explicit null.
    Null,
    /// A value that could not be resolved.
    Bad,
    /// A list or a table where a plain value was expected.
    Nested,
}

/// The value bound to a key.
#[derive(Debug, PartialEq, Eq)]
pub enum ConfigValue {
    /// A string, number or boolean: its text, and its reading as a flag if
    /// it has one.
    Scalar { text: String, flag: Option<bool> },
    /// An explicit null.
    Null,
    /// A value that could not be resolved.
    Bad,
    /// A sequence of values.
    List(Vec<ConfigItem>),
}

/// A key and the value bound to it.
#[derive(Debug, PartialEq, Eq)]
pub struct ConfigEntry {
    pub key: String,
    pub value: ConfigValue,
}

/// A table of entries, in the order in which they were written.
#[derive(Debug, PartialEq, Eq)]
pub struct Config {
    pub entries: Vec<ConfigEntry>,
}

pub enum ConfigItemView {
    Scalar { text: Seq<char>, flag: Option<bool> },
    Null,
    Bad,
    Nested,
}

pub enum ConfigValueView {
    Scalar { text: Seq<char>, flag: Option<bool> },
    Null,
    Bad,
    List(Seq<ConfigItemView>),
}

pub struct ConfigEntryView {
    pub key: Seq<char>,
    pub value: ConfigValueView,
}

impl View for ConfigItem {
    type V = ConfigItemView;

    open spec fn view(&self) -> ConfigItemView {
        match *self {
            ConfigItem::Scalar { text, flag } => ConfigItemView::Scalar { text: text@, flag },
            ConfigItem::Null => ConfigItemView::Null,
            ConfigItem::Bad => ConfigItemView::Bad,
            ConfigItem::Nested => ConfigItemView::Nested,
        }
    }
}

impl View for ConfigValue {
    type V = ConfigValueView;

    open spec fn view(&self) -> ConfigValueView {
        match *self {
            ConfigValue::Scalar { text, flag } => ConfigValueView::Scalar { text: text@, flag },
            ConfigValue::Null => ConfigValueView::Null,
            ConfigValue::Bad => ConfigValueView::Bad,
            ConfigValue::List(items) => ConfigValueView::List(
                Seq::new(items@.len(), |i: int| items@[i]@),
            ),
        }
    }
}

impl View for ConfigEntry {
    type V = ConfigEntryView;

    open spec fn view(&self) -> ConfigEntryView {
        ConfigEntryView { key: self.key@, value: self.value@ }
    }
}

impl View for Config {
    type V = Seq<ConfigEntryView>;

    open spec fn view(&self) -> Seq<ConfigEntryView> {
        Seq::new(self.entries@.len(), |i: int| self.entries@[i]@)
    }
}

/// The value bound to `key` in `entries`, searching from index `from`: that
/// of the first entry with this key.
pub open spec fn lookup_from(entries: Seq<ConfigEntryView>, key: Seq<char>, from: int) -> Option<
    ConfigValueView,
>
    decreases entries.len() - from,
{
    if from < 0 || from >= entries.len() {
        None
    } else if entries[from].key == key {
        Some(entries[from].value)
    } else {
        lookup_from(entries, key, from + 1)
    }
}

/// The value bound to `key` in `entries`, if there is one.
pub open spec fn lookup(entries: Seq<ConfigEntryView>, key: Seq<char>) -> Option<ConfigValueView> {
    lookup_from(entries, key, 0)
}

pub open spec fn value_view(value: Option<&ConfigValue>) -> Option<ConfigValueView> {
    match value {
        Some(v) => Some(v@),
        None => None,
    }
}

impl Config {
    /// The value bound to `key`, if there is one.
    pub fn get(&self, key: &str) -> (res: Option<&ConfigValue>)
        ensures
            value_view(res) == lookup(self@, key@),
    {
        let mut i: usize = 0;
        while i < self.entries.len()
            invariant
                i <= self.entries.len(),
                lookup(self@, key@) == lookup_from(self@, key@, i as int),
            decreases self.entries.len() - i,
        {
            if crate::text::str_equal(self.entries[i].key.as_str(), key) {
                return Some(&self.entries[i].value);
            }
            i += 1;
        }
        None
    }
}

/// `hocon::Hocon`, a value as the loader hands it out. Nothing is known
/// of what it holds.
#[verifier::external_type_specification]
#[verifier::external_body]
pub struct ExHocon(hocon::Hocon);

/// `hocon::Error`, the loader's error. Nothing is known of what it holds.
#[verifier::external_type_specification]
#[verifier::external_body]
pub struct ExHoconError(hocon::Error);

/// Why a text yields no table.
#[derive(Debug, PartialEq, Eq, Clone, Copy)]
pub enum LoadError {
    /// The text is not handed to the loader: it is too long, opens too
    /// many lists and tables, holds an escape by code point, or holds a
    /// substitution, an appending or a character outside ASCII that does
    /// not stand plainly between double quotes.
    Unsupported,
    /// The text is not in the loader's grammar.
    Syntax,
    /// The text is read, but what it denotes is not a table.
    NotATable,
}

/// The longest text that is handed to the loader, in characters. The
/// loader passes over all the rest of a text for each unquoted word it
/// reads, and descends once for each part of a dotted key, so that the
/// time and the stack it takes grow with the length.
pub const MAX_TEXT: usize = 1024;

/// The most brackets and braces that a text handed to the loader opens:
/// the loader descends once for each.
pub const MAX_OPENINGS: usize = 16;

/// Whether a character lies outside ASCII.
pub open spec fn wide(c: char) -> bool {
    c > '\u{7f}'
}

/// Whether an escape by code point (a backslash and `u`) starts at index
/// `i` of `text`.
pub open spec fn escape_at(text: Seq<char>, i: int) -> bool {
    0 <= i && i + 1 < text.len() && text[i] == '\\' && text[i + 1] == 'u'
}

/// Whether something stands at index `i` of `text` that the loader takes
/// only within a quoted string: a character outside ASCII, or the start
/// of what would be a substitution (`${`) or an appending (`+=`)
/// elsewhere.
pub open spec fn delicate_at(text: Seq<char>, i: int) -> bool {
    0 <= i < text.len() && (wide(text[i]) || (i + 1 < text.len() && ((text[i] == '$' && text[i
        + 1] == '{') || (text[i] == '+' && text[i + 1] == '='))))
}

/// Whether something starts at index `i` of `text` that lets the loader
/// pair double quotes otherwise than two by two: a backslash, a comment
/// (`#` or `//`) or three double quotes in a row.
pub open spec fn unpaired_at(text: Seq<char>, i: int) -> bool {
    0 <= i < text.len() && (text[i] == '\\' || text[i] == '#' || (i + 1 < text.len() && text[i]
        == '/' && text[i + 1] == '/') || (i + 2 < text.len() && text[i] == '"' && text[i + 1]
        == '"' && text[i + 2] == '"'))
}

/// How many of the first `n` characters of `text` are double quotes.
pub open spec fn quotes(text: Seq<char>, n: int) -> nat
    decreases n,
{
    if n <= 0 {
        0
    } else if text[n - 1] == '"' {
        quotes(text, n - 1) + 1
    } else {
        quotes(text, n - 1)
    }
}

/// Whether the character at index `i` stands between double quotes: an
/// odd number of them precedes it.
pub open spec fn quoted_at(text: Seq<char>, i: int) -> bool {
    quotes(text, i) % 2 == 1
}

/// Whether a text holds nothing that the loader takes only within a
/// quoted string.
pub open spec fn sturdy(text: Seq<char>) -> bool {
    forall|i: int| 0 <= i < text.len() ==> !#[trigger] delicate_at(text, i)
}

/// How many of the first `n` characters of `text` open a list or a
/// table.
pub open spec fn openings(text: Seq<char>, n: int) -> nat
    decreases n,
{
    if n <= 0 {
        0
    } else if text[n - 1] == '[' || text[n - 1] == '{' {
        openings(text, n - 1) + 1
    } else {
        openings(text, n - 1)
    }
}

/// Whether a text is handed to the loader. It is not too long and does
/// not open too many lists and tables. It holds no escape by code
/// point. A character outside ASCII, and what would be a substitution or
/// an appending elsewhere, stands between double quotes, and a text that
/// has one of these has nothing that lets the loader pair the quotes
/// otherwise than two by two.
pub open spec fn plain(text: Seq<char>) -> bool {
    &&& text.len() <= MAX_TEXT
    &&& forall|i: int| 0 <= i < text.len() ==> !#[trigger] escape_at(text, i)
    &&& forall|i: int| 0 <= i < text.len() && delicate_at(text, i) ==> #[trigger] quoted_at(text, i)
    &&& !sturdy(text) ==> forall|i: int| 0 <= i < text.len() ==> !#[trigger] unpaired_at(text, i)
    &&& openings(text, text.len() as int) <= MAX_OPENINGS
}

/// Tells whether something stands at index `i` that the loader takes
/// only within a quoted string.
fn is_delicate(chars: &Vec<char>, i: usize) -> (res: bool)
    requires
        i < chars.len(),
    ensures
        res == delicate_at(chars@, i as int),
{
    let c = chars[i];
    c > '\u{7f}' || (i + 1 < chars.len() && ((c == '$' && chars[i + 1] == '{') || (c == '+'
        && chars[i + 1] == '=')))
}

/// Tells whether a text holds nothing that the loader takes only within
/// a quoted string.
pub fn is_sturdy(chars: &Vec<char>) -> (res: bool)
    ensures
        res == sturdy(chars@),
{
    let mut i: usize = 0;
    while i < chars.len()
        invariant
            i <= chars.len(),
            forall|k: int| 0 <= k < i ==> !#[trigger] delicate_at(chars@, k),
        decreases chars.len() - i,
    {
        if is_delicate(chars, i) {
            return false;
        }
        i += 1;
    }
    true
}

/// Tells whether a text is handed to the loader.
pub fn is_plain(text: &str) -> (res: bool)
    ensures
        res == plain(text@),
{
    let chars = crate::text::chars_of(text);
    let n = chars.len();
    if n > MAX_TEXT {
        return false;
    }
    let all_sturdy = is_sturdy(&chars);
    let mut opened: usize = 0;
    let mut inside = false;
    let mut i: usize = 0;
    while i < n
        invariant
            i <= n <= MAX_TEXT,
            n == chars.len(),
            chars@ == text@,
            all_sturdy == sturdy(text@),
            forall|k: int| 0 <= k < i ==> !#[trigger] escape_at(text@, k),
            forall|k: int| 0 <= k < i && delicate_at(text@, k) ==> #[trigger] quoted_at(text@, k),
            !all_sturdy ==> forall|k: int| 0 <= k < i ==> !#[trigger] unpaired_at(text@, k),
            inside == quoted_at(text@, i as int),
            opened == openings(text@, i as int),
            opened <= i,
        decreases n - i,
    {
        let c = chars[i];
        if i + 1 < n && c == '\\' && chars[i + 1] == 'u' {
            assert(escape_at(text@, i as int));
            return false;
        }
        if is_delicate(&chars, i) && !inside {
            assert(delicate_at(text@, i as int) && !quoted_at(text@, i as int));
            return false;
        }
        if !all_sturdy {
            let comment = c == '#' || (i + 1 < n && c == '/' && chars[i + 1] == '/');
            let triple = i + 2 < n && c == '"' && chars[i + 1] == '"' && chars[i + 2] == '"';
            if c == '\\' || comment || triple {
                assert(unpaired_at(text@, i as int));
                return false;
            }
        }
        if c == '"' {
            inside = !inside;
        }
        if c == '[' || c == '{' {
            opened += 1;
        }
        i += 1;
    }
    opened <= MAX_OPENINGS
}

/// Reads `text` with a default `hocon::HoconLoader`: `load_str`, then
/// `hocon`. The contract names the outcome. The texts on which the
/// loader is not known to return, or on which it reads anything but the
/// text, are left out:
///
/// - Its parser of unquoted words unwraps `str::from_utf8` of each byte
///   up to the next delimiter (`parser.rs`, `take_until_tag1`), so it
///   panics on a byte outside ASCII. A double quote is a delimiter, and
///   nothing passes one but the parsers of quoted strings, of strings
///   in three quotes and of comments, so where the quotes pair two by
///   two such bytes are met only by the parser of quoted strings, which
///   takes them.
/// - Its unescaping cuts the text by bytes behind a backslash and `u`
///   (`internals/str_unescape.rs`).
/// - A substitution (`${`) brings paths of any kind of value, on which
///   `string_value` and `simple_finalize` give up, parent substitutions
///   with random ids, and reads of the environment
///   (`internals/value.rs`, `internals/internal.rs`).
/// - An appending (`+=`) draws a random id (`parser.rs`) and wraps
///   values that `finalize` does not expect when one stands in another.
///   Within a quoted string both are plain characters.
/// - Each opening bracket or brace is one more descent of the parser,
///   each part of a dotted key one more of `finalize`, and each unquoted
///   word one more pass over the rest of the text.
///
/// Without these, keys are strings and indices are integers, which is
/// all that the hashing of paths, `string_value` on keys and the choice
/// between list and table in `Node::finalize` take; empty lists and
/// tables and placeholders are replaced in `merge` before `finalize`
/// sees them; the `expect`s in `helper.rs`, in `maybe_concat` and in
/// `merge` stand behind tests that make them hold.
#[verifier::external_body]
fn load_hocon(text: &str) -> (res: Result<hocon::Hocon, hocon::Error>)
    requires
        plain(text@),
    ensures
        loaded(text@) == match res {
            Ok(root) => table_of(root),
            Err(_) => Err(LoadError::Syntax),
        },
{
    hocon::HoconLoader::new().load_str(text)?.hocon()
}

/// What the loader makes of a text that is handed to it: the entries of
/// the table that the text denotes, each value in its plain form, or why
/// there is none. On such a text the loader reads no file, no
/// environment and no random number, so this depends on the text alone.
pub uninterp spec fn loaded(text: Seq<char>) -> Result<Seq<ConfigEntryView>, LoadError>;

/// The keys of a loaded table, in their order; none for a value that is
/// no table.
pub uninterp spec fn keys_of(value: hocon::Hocon) -> Option<Seq<Seq<char>>>;

/// What a loaded value holds under a key: `Index<&str>` of
/// `hocon::Hocon`.
pub uninterp spec fn field_of(value: hocon::Hocon, key: Seq<char>) -> hocon::Hocon;

/// How many elements a loaded list or table holds; none for a value that
/// is neither.
pub uninterp spec fn count_of(value: hocon::Hocon) -> Option<usize>;

/// What a loaded value holds at a position: `Index<usize>` of
/// `hocon::Hocon`.
pub uninterp spec fn element_of(value: hocon::Hocon, index: usize) -> hocon::Hocon;

/// What a loaded value is when its variants are told apart, with what
/// `as_string` and `as_bool` make of a string, number or boolean.
pub uninterp spec fn item_of(value: hocon::Hocon) -> ConfigItemView;

/// The elements of a loaded value by position, each told apart; none for
/// a value that is neither list nor table.
pub open spec fn items_of(value: hocon::Hocon) -> Option<Seq<ConfigItemView>> {
    match count_of(value) {
        Some(n) => Some(Seq::new(n as nat, |j: int| item_of(element_of(value, j as usize)))),
        None => None,
    }
}

/// The table that a loaded value stands for: under each of its keys the
/// plain form of what it holds there; none for a value that is no table.
pub open spec fn table_of(root: hocon::Hocon) -> Result<Seq<ConfigEntryView>, LoadError> {
    match keys_of(root) {
        Some(keys) => Ok(
            Seq::new(
                keys.len(),
                |i: int|
                    ConfigEntryView {
                        key: keys[i],
                        value: plain_form(
                            item_of(field_of(root, keys[i])),
                            items_of(field_of(root, keys[i])),
                        ),
                    },
            ),
        ),
        None => Err(LoadError::NotATable),
    }
}

/// The view of a table that was read, or why none was.
pub open spec fn table_result(res: Result<Config, LoadError>) -> Result<
    Seq<ConfigEntryView>,
    LoadError,
> {
    match res {
        Ok(config) => Ok(config@),
        Err(e) => Err(e),
    }
}

/// The keys of a `hocon::Hocon::Hash`, in their order; `None` for any
/// other variant. The contract names the result.
#[verifier::external_body]
fn hocon_keys(value: &hocon::Hocon) -> (res: Option<Vec<String>>)
    ensures
        keys_of(*value) == match res {
            Some(keys) => Some(keys.deep_view()),
            None => None,
        },
{
    match value {
        hocon::Hocon::Hash(entries) => Some(entries.keys().cloned().collect()),
        _ => None,
    }
}

/// `hocon::Hocon`'s index by key (`Index<&str>`), cloned. The contract
/// names the result.
#[verifier::external_body]
fn hocon_get(value: &hocon::Hocon, key: &str) -> (res: hocon::Hocon)
    ensures
        res == field_of(*value, key@),
{
    value[key].clone()
}

/// How many elements a `hocon::Hocon::Array` or a `hocon::Hocon::Hash`
/// holds; `None` for any other variant. The contract names the result.
#[verifier::external_body]
fn hocon_len(value: &hocon::Hocon) -> (res: Option<usize>)
    ensures
        res == count_of(*value),
{
    match value {
        hocon::Hocon::Array(items) => Some(items.len()),
        hocon::Hocon::Hash(entries) => Some(entries.len()),
        _ => None,
    }
}

/// `hocon::Hocon`'s index by position (`Index<usize>`), cloned. The
/// contract names the result.
#[verifier::external_body]
fn hocon_at(value: &hocon::Hocon, index: usize) -> (res: hocon::Hocon)
    ensures
        res == element_of(*value, index),
{
    value[index].clone()
}

/// Tells the variants of a `hocon::Hocon` apart. For a string, number or
/// boolean it keeps what `as_string` and `as_bool` return. The contract
/// names the result.
#[verifier::external_body]
fn hocon_item(value: &hocon::Hocon) -> (res: ConfigItem)
    ensures
        res@ == item_of(*value),
{
    match value {
        hocon::Hocon::Array(_) => ConfigItem::Nested,
        hocon::Hocon::Hash(_) => ConfigItem::Nested,
        hocon::Hocon::Null => ConfigItem::Null,
        hocon::Hocon::BadValue(_) => ConfigItem::Bad,
        scalar => ConfigItem::Scalar {
            text: scalar.as_string().unwrap_or_default(),
            flag: scalar.as_bool(),
        },
    }
}

/// The elements of a loaded value by position, each told apart: those of
/// a list, or those of a table under its numbered keys; none for a value
/// that is neither.
fn elements_of(value: &hocon::Hocon) -> (res: Option<Vec<ConfigItem>>)
    ensures
        opt_items(res) == items_of(*value),
{
    match hocon_len(value) {
        Some(n) => {
            let mut items: Vec<ConfigItem> = Vec::new();
            let mut i: usize = 0;
            while i < n
                invariant
                    i <= n,
                    items.len() == i,
                    forall|j: int|
                        0 <= j < i ==> (#[trigger] items@[j])@ == item_of(
                            element_of(*value, j as usize),
                        ),
                decreases n - i,
            {
                let element = hocon_at(value, i);
                items.push(hocon_item(&element));
                i += 1;
            }
            assert(opt_items(Some(items))->Some_0 =~= items_of(*value)->Some_0);
            Some(items)
        },
        None => None,
    }
}

/// The elements of an optional list, each by its view.
pub open spec fn opt_items(elements: Option<Vec<ConfigItem>>) -> Option<Seq<ConfigItemView>> {
    match elements {
        Some(items) => Some(Seq::new(items@.len(), |i: int| items@[i]@)),
        None => None,
    }
}

/// The plain form of a value that is `own` when told apart and has the
/// elements `elements`: the list of its elements where it has any
/// sequence of them, else itself; a value that is nested and yet has no
/// elements counts as unresolved.
pub open spec fn plain_form(own: ConfigItemView, elements: Option<Seq<ConfigItemView>>)
    -> ConfigValueView {
    match elements {
        Some(items) => ConfigValueView::List(items),
        None => match own {
            ConfigItemView::Scalar { text, flag } => ConfigValueView::Scalar { text, flag },
            ConfigItemView::Null => ConfigValueView::Null,
            ConfigItemView::Bad => ConfigValueView::Bad,
            ConfigItemView::Nested => ConfigValueView::Bad,
        },
    }
}

/// The plain form of a loaded value, from what it is when told apart and
/// from its elements by position, if it has any.
pub fn plain_value(own: ConfigItem, elements: Option<Vec<ConfigItem>>) -> (res: ConfigValue)
    ensures
        res@ == plain_form(own@, opt_items(elements)),
{
    match elements {
        Some(items) => ConfigValue::List(items),
        None => match own {
            ConfigItem::Scalar { text, flag } => ConfigValue::Scalar { text, flag },
            ConfigItem::Null => ConfigValue::Null,
            ConfigItem::Bad => ConfigValue::Bad,
            ConfigItem::Nested => ConfigValue::Bad,
        },
    }
}

impl Config {
    /// Reads a table from `text`. A text that is not handed to the loader
    /// is refused. Of any other text, what comes back is what the loader
    /// makes of it.
    pub fn load(text: &str) -> (res: Result<Config, LoadError>)
        ensures
            res == Err::<Config, LoadError>(LoadError::Unsupported) <==> !plain(text@),
            plain(text@) ==> table_result(res) == loaded(text@),
    {
        if !is_plain(text) {
            return Err(LoadError::Unsupported);
        }
        let root = match load_hocon(text) {
            Ok(root) => root,
            Err(_) => {
                return Err(LoadError::Syntax);
            },
        };
        let keys = match hocon_keys(&root) {
            Some(keys) => keys,
            None => {
                return Err(LoadError::NotATable);
            },
        };
        let ghost names = keys.deep_view();
        let ghost table = table_of(root)->Ok_0;
        let mut entries: Vec<ConfigEntry> = Vec::new();
        let mut i: usize = 0;
        while i < keys.len()
            invariant
                i <= keys.len(),
                entries.len() == i,
                names == keys.deep_view(),
                keys_of(root) == Some(names),
                table_of(root) == Ok::<Seq<ConfigEntryView>, LoadError>(table),
                forall|k: int| 0 <= k < i ==> (#[trigger] entries@[k])@ == table[k],
            decreases keys.len() - i,
        {
            let bound = hocon_get(&root, keys[i].as_str());
            assert(keys[i as int]@ == names[i as int]);
            let value = plain_value(hocon_item(&bound), elements_of(&bound));
            entries.push(ConfigEntry { key: keys[i].clone(), value });
            i += 1;
        }
        let config = Config { entries };
        assert(config@ =~= table);
        Ok(config)
    }
}

} // verus!
