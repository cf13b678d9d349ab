//! The execution options that a fence header carries.

use vstd::prelude::*;
use crate::fenced_attributes::config::{
    loaded, lookup, plain, value_view, Config, ConfigEntryView, ConfigItem, ConfigItemView,
    ConfigValue, ConfigValueView, LoadError,
};
use crate::text::{clone_opt_string, clone_opt_strings, opt_text, opt_texts};

verus! {

/// Code chunk attributes: filters, command, arguments, path and flags.
#[derive(Debug, PartialEq, Eq)]
pub struct Attributes {
    /// optional id, which names the generated file
    pub id: Option<String>,
    /// system filter, e.g. `linux`, `macos`, `windows`
    pub sys: Option<Vec<String>>,
    /// linux distro filter, e.g. `arch`, `debian`
    pub linux_distro: Option<Vec<String>>,
    /// system architecture filter, e.g. `x86_64`, `arm`
    pub arch: Option<Vec<String>>,
    /// code chunk executor name or path, e.g. `sh`, `node`
    pub cmd: Option<String>,
    /// code chunk executor arguments
    pub args: Option<Vec<String>>,
    /// `PATH` env variable for the command
    pub path: Option<String>,
    /// whether the code chunk is executed as a file
    pub as_file: bool,
    /// whether the stdout of the code chunk is displayed
    pub stdout: bool,
    /// whether warnings are allowed
    pub allow_warnings: bool,
    /// whether errors are allowed
    pub allow_errors: bool,
    /// whether the code chunk runs behind sudo
    pub with_sudo: bool,
}

pub struct AttributesView {
    pub id: Option<Seq<char>>,
    pub sys: Option<Seq<Seq<char>>>,
    pub linux_distro: Option<Seq<Seq<char>>>,
    pub arch: Option<Seq<Seq<char>>>,
    pub cmd: Option<Seq<char>>,
    pub args: Option<Seq<Seq<char>>>,
    pub path: Option<Seq<char>>,
    pub as_file: bool,
    pub stdout: bool,
    pub allow_warnings: bool,
    pub allow_errors: bool,
    pub with_sudo: bool,
}

impl View for Attributes {
    type V = AttributesView;

    open spec fn view(&self) -> AttributesView {
        AttributesView {
            id: opt_text(self.id),
            sys: opt_texts(self.sys),
            linux_distro: opt_texts(self.linux_distro),
            arch: opt_texts(self.arch),
            cmd: opt_text(self.cmd),
            args: opt_texts(self.args),
            path: opt_text(self.path),
            as_file: self.as_file,
            stdout: self.stdout,
            allow_warnings: self.allow_warnings,
            allow_errors: self.allow_errors,
            with_sudo: self.with_sudo,
        }
    }
}

/// Why a text yields no attributes.
#[derive(Debug, PartialEq, Eq, Clone, Copy)]
pub enum AttributesError {
    /// The text is not handed to the loader: it is too long, opens too
    /// many lists and tables, holds an escape by code point, or holds a
    /// substitution, an appending or a character outside ASCII that does
    /// not stand plainly between double quotes.
    Unsupported,
    /// The text is not in the loader's grammar.
    Syntax,
    /// The text is read, but it is no table, or a known key is bound to a
    /// value of the wrong shape.
    Invalid,
}

impl AttributesView {
    /// No filter, no command, every flag off.
    pub open spec fn empty() -> AttributesView {
        AttributesView {
            id: None,
            sys: None,
            linux_distro: None,
            arch: None,
            cmd: None,
            args: None,
            path: None,
            as_file: false,
            stdout: false,
            allow_warnings: false,
            allow_errors: false,
            with_sudo: false,
        }
    }

    /// Nothing set: no id, no filter, no command, arguments or path, and
    /// each flag at its default: executed as a file, stdout displayed
    /// and warnings allowed; errors not allowed, no sudo.
    pub open spec fn unset() -> AttributesView {
        AttributesView {
            id: None,
            sys: None,
            linux_distro: None,
            arch: None,
            cmd: None,
            args: None,
            path: None,
            as_file: true,
            stdout: true,
            allow_warnings: true,
            allow_errors: false,
            with_sudo: false,
        }
    }

    /// These attributes under the id `id`.
    pub open spec fn with_id(self, id: Seq<char>) -> AttributesView {
        AttributesView { id: Some(id), ..self }
    }
}

/// An optional string: absent, null and unresolved all read as none; a
/// list does not read.
pub open spec fn text_field(value: Option<ConfigValueView>) -> Result<Option<Seq<char>>, ()> {
    match value {
        None => Ok(None),
        Some(ConfigValueView::Null) => Ok(None),
        Some(ConfigValueView::Bad) => Ok(None),
        Some(ConfigValueView::Scalar { text, flag }) => Ok(Some(text)),
        Some(ConfigValueView::List(_)) => Err(()),
    }
}

/// The texts of `items` from index `from` on, up to the first unresolved
/// element or the end; none if a null or a nested value comes first.
pub open spec fn texts_from(items: Seq<ConfigItemView>, from: int) -> Option<Seq<Seq<char>>>
    decreases items.len() - from,
{
    if from < 0 || from >= items.len() {
        Some(Seq::empty())
    } else {
        match items[from] {
            ConfigItemView::Bad => Some(Seq::empty()),
            ConfigItemView::Scalar { text, flag } => match texts_from(items, from + 1) {
                Some(rest) => Some(seq![text] + rest),
                None => None,
            },
            ConfigItemView::Null => None,
            ConfigItemView::Nested => None,
        }
    }
}

/// An optional list of strings: absent, null and unresolved all read as
/// none; a plain value does not read.
pub open spec fn list_field(value: Option<ConfigValueView>) -> Result<Option<Seq<Seq<char>>>, ()> {
    match value {
        None => Ok(None),
        Some(ConfigValueView::Null) => Ok(None),
        Some(ConfigValueView::Bad) => Ok(None),
        Some(ConfigValueView::Scalar { text, flag }) => Err(()),
        Some(ConfigValueView::List(items)) => match texts_from(items, 0) {
            Some(texts) => Ok(Some(texts)),
            None => Err(()),
        },
    }
}

/// A flag: `default` where the key is absent; otherwise the value must
/// read as a flag.
pub open spec fn flag_field(value: Option<ConfigValueView>, default: bool) -> Result<bool, ()> {
    match value {
        None => Ok(default),
        Some(ConfigValueView::Scalar { text, flag: Some(b) }) => Ok(b),
        Some(_) => Err(()),
    }
}

/// The attributes that a table denotes: each known key read by its kind,
/// unknown keys ignored; an error as soon as one known key does not read.
pub open spec fn attributes_of(entries: Seq<ConfigEntryView>) -> Result<
    AttributesView,
    AttributesError,
> {
    let id = text_field(lookup(entries, "id"@));
    let sys = list_field(lookup(entries, "sys"@));
    let linux_distro = list_field(lookup(entries, "linux_distro"@));
    let arch = list_field(lookup(entries, "arch"@));
    let cmd = text_field(lookup(entries, "cmd"@));
    let args = list_field(lookup(entries, "args"@));
    let path = text_field(lookup(entries, "path"@));
    let as_file = flag_field(lookup(entries, "as_file"@), true);
    let stdout = flag_field(lookup(entries, "stdout"@), true);
    let allow_warnings = flag_field(lookup(entries, "allow_warnings"@), true);
    let allow_errors = flag_field(lookup(entries, "allow_errors"@), false);
    let with_sudo = flag_field(lookup(entries, "with_sudo"@), false);
    if id is Ok && sys is Ok && linux_distro is Ok && arch is Ok && cmd is Ok && args is Ok
        && path is Ok && as_file is Ok && stdout is Ok && allow_warnings is Ok && allow_errors is Ok
        && with_sudo is Ok {
        Ok(
            AttributesView {
                id: id->Ok_0,
                sys: sys->Ok_0,
                linux_distro: linux_distro->Ok_0,
                arch: arch->Ok_0,
                cmd: cmd->Ok_0,
                args: args->Ok_0,
                path: path->Ok_0,
                as_file: as_file->Ok_0,
                stdout: stdout->Ok_0,
                allow_warnings: allow_warnings->Ok_0,
                allow_errors: allow_errors->Ok_0,
                with_sudo: with_sudo->Ok_0,
            },
        )
    } else {
        Err(AttributesError::Invalid)
    }
}

/// What a parse of `text` gives where `fresh` is the id for attributes
/// that name none. A text that is not handed to the loader is refused.
/// A text that the loader does not read is a syntax error. Else the
/// table that the loader makes of the text is read for the attributes
/// it denotes; where there is no table, or a known key is bound to a
/// value of the wrong shape, the text is invalid.
pub open spec fn parsed_of(text: Seq<char>, fresh: Seq<char>) -> Result<
    AttributesView,
    AttributesError,
> {
    if !plain(text) {
        Err(AttributesError::Unsupported)
    } else {
        match loaded(text) {
            Ok(entries) => match attributes_of(entries) {
                Ok(denoted) => Ok(
                    if denoted.id is Some {
                        denoted
                    } else {
                        denoted.with_id(fresh)
                    },
                ),
                Err(e) => Err(e),
            },
            Err(LoadError::NotATable) => Err(AttributesError::Invalid),
            Err(_) => Err(AttributesError::Syntax),
        }
    }
}

/// What `Attributes::parse` hands back for `text`: what a parse gives
/// under some id for attributes that name none.
pub open spec fn parse_gives(text: Seq<char>, res: Result<AttributesView, AttributesError>)
    -> bool {
    exists|fresh: Seq<char>| res == #[trigger] parsed_of(text, fresh)
}

pub open spec fn text_result(res: Result<Option<String>, ()>) -> Result<Option<Seq<char>>, ()> {
    match res {
        Ok(v) => Ok(opt_text(v)),
        Err(e) => Err(e),
    }
}

pub open spec fn list_result(res: Result<Option<Vec<String>>, ()>) -> Result<
    Option<Seq<Seq<char>>>,
    (),
> {
    match res {
        Ok(v) => Ok(opt_texts(v)),
        Err(e) => Err(e),
    }
}

pub open spec fn attributes_result(res: Result<Attributes, AttributesError>) -> Result<
    AttributesView,
    AttributesError,
> {
    match res {
        Ok(a) => Ok(a@),
        Err(e) => Err(e),
    }
}

fn read_text(value: Option<&ConfigValue>) -> (res: Result<Option<String>, ()>)
    ensures
        text_result(res) == text_field(value_view(value)),
{
    match value {
        None => Ok(None),
        Some(ConfigValue::Null) => Ok(None),
        Some(ConfigValue::Bad) => Ok(None),
        Some(ConfigValue::Scalar { text, flag }) => Ok(Some(text.clone())),
        Some(ConfigValue::List(_)) => Err(()),
    }
}

proof fn lemma_texts_step(items: Seq<ConfigItemView>, from: int)
    requires
        0 <= from < items.len(),
    ensures
        items[from] is Bad ==> texts_from(items, from) == Some(Seq::<Seq<char>>::empty()),
        items[from] is Null || items[from] is Nested ==> texts_from(items, from) is None,
        items[from] matches ConfigItemView::Scalar { text, flag } ==> texts_from(items, from)
            == match texts_from(items, from + 1) {
            Some(rest) => Some(seq![text] + rest),
            None => None,
        },
{
}

/// `rest` behind `head`, where there is a `rest`.
pub open spec fn prepend(head: Seq<Seq<char>>, rest: Option<Seq<Seq<char>>>) -> Option<
    Seq<Seq<char>>,
> {
    match rest {
        Some(r) => Some(head + r),
        None => None,
    }
}

fn read_list(value: Option<&ConfigValue>) -> (res: Result<Option<Vec<String>>, ()>)
    ensures
        list_result(res) == list_field(value_view(value)),
{
    match value {
        None => Ok(None),
        Some(ConfigValue::Null) => Ok(None),
        Some(ConfigValue::Bad) => Ok(None),
        Some(ConfigValue::Scalar { text, flag }) => Err(()),
        Some(ConfigValue::List(items)) => {
            let ghost model = value_view(value)->Some_0->List_0;
            let mut out: Vec<String> = Vec::new();
            let mut i: usize = 0;
            while i < items.len()
                invariant
                    i <= items.len(),
                    model.len() == items@.len(),
                    forall|k: int| 0 <= k < items@.len() ==> model[k] == items@[k]@,
                    value_view(value) == Some(ConfigValueView::List(model)),
                    texts_from(model, 0) == prepend(out.deep_view(), texts_from(model, i as int)),
                decreases items.len() - i,
            {
                proof {
                    lemma_texts_step(model, i as int);
                }
                match &items[i] {
                    ConfigItem::Bad => {
                        assert(out.deep_view() + Seq::<Seq<char>>::empty() =~= out.deep_view());
                        return Ok(Some(out));
                    },
                    ConfigItem::Scalar { text, flag } => {
                        let ghost before = out.deep_view();
                        out.push(text.clone());
                        proof {
                            assert(out.deep_view() =~= before + seq![text@]);
                            match texts_from(model, i + 1) {
                                Some(rest) => {
                                    assert(before + (seq![text@] + rest) =~= (before + seq![
                                        text@,
                                    ]) + rest);
                                },
                                None => {},
                            }
                        }
                    },
                    ConfigItem::Null => {
                        return Err(());
                    },
                    ConfigItem::Nested => {
                        return Err(());
                    },
                }
                i += 1;
            }
            assert(out.deep_view() + Seq::<Seq<char>>::empty() =~= out.deep_view());
            Ok(Some(out))
        },
    }
}

fn read_flag(value: Option<&ConfigValue>, default: bool) -> (res: Result<bool, ()>)
    ensures
        res == flag_field(value_view(value), default),
{
    match value {
        None => Ok(default),
        Some(ConfigValue::Scalar { text, flag: Some(b) }) => Ok(*b),
        Some(_) => Err(()),
    }
}

impl Default for Attributes {
    /// No filter, no command, every flag off.
    fn default() -> (res: Attributes)
        ensures
            res@ == AttributesView::empty(),
    {
        Attributes {
            id: None,
            sys: None,
            linux_distro: None,
            arch: None,
            cmd: None,
            args: None,
            path: None,
            as_file: false,
            stdout: false,
            allow_warnings: false,
            allow_errors: false,
            with_sudo: false,
        }
    }
}

impl Clone for Attributes {
    fn clone(&self) -> (res: Attributes)
        ensures
            res@ == self@,
    {
        Attributes {
            id: clone_opt_string(&self.id),
            sys: clone_opt_strings(&self.sys),
            linux_distro: clone_opt_strings(&self.linux_distro),
            arch: clone_opt_strings(&self.arch),
            cmd: clone_opt_string(&self.cmd),
            args: clone_opt_strings(&self.args),
            path: clone_opt_string(&self.path),
            as_file: self.as_file,
            stdout: self.stdout,
            allow_warnings: self.allow_warnings,
            allow_errors: self.allow_errors,
            with_sudo: self.with_sudo,
        }
    }
}

/// A fresh unique token: `uuid::Uuid::new_v4`, in the text form of its
/// `to_string`. It is random, so nothing is claimed of it.
#[verifier::external_body]
pub(crate) fn fresh_id() -> (res: String) {
    uuid::Uuid::new_v4().to_string()
}

impl Attributes {
    /// The attributes in which nothing is set but the id: no filter, no
    /// command, arguments or path, each flag at its default.
    pub fn unset(id: String) -> (res: Attributes)
        ensures
            res@ == AttributesView::unset().with_id(id@),
    {
        Attributes {
            id: Some(id),
            sys: None,
            linux_distro: None,
            arch: None,
            cmd: None,
            args: None,
            path: None,
            as_file: true,
            stdout: true,
            allow_warnings: true,
            allow_errors: false,
            with_sudo: false,
        }
    }

    /// Reads the attributes that a table denotes.
    pub fn from_config(config: &Config) -> (res: Result<Attributes, AttributesError>)
        ensures
            attributes_result(res) == attributes_of(config@),
    {
        let id = read_text(config.get("id"));
        let sys = read_list(config.get("sys"));
        let linux_distro = read_list(config.get("linux_distro"));
        let arch = read_list(config.get("arch"));
        let cmd = read_text(config.get("cmd"));
        let args = read_list(config.get("args"));
        let path = read_text(config.get("path"));
        let as_file = read_flag(config.get("as_file"), true);
        let stdout = read_flag(config.get("stdout"), true);
        let allow_warnings = read_flag(config.get("allow_warnings"), true);
        let allow_errors = read_flag(config.get("allow_errors"), false);
        let with_sudo = read_flag(config.get("with_sudo"), false);
        match (id, sys, linux_distro, arch, cmd, args, path) {
            (Ok(id), Ok(sys), Ok(linux_distro), Ok(arch), Ok(cmd), Ok(args), Ok(path)) => {
                match (as_file, stdout, allow_warnings, allow_errors, with_sudo) {
                    (
                        Ok(as_file),
                        Ok(stdout),
                        Ok(allow_warnings),
                        Ok(allow_errors),
                        Ok(with_sudo),
                    ) => Ok(
                        Attributes {
                            id,
                            sys,
                            linux_distro,
                            arch,
                            cmd,
                            args,
                            path,
                            as_file,
                            stdout,
                            allow_warnings,
                            allow_errors,
                            with_sudo,
                        },
                    ),
                    _ => Err(AttributesError::Invalid),
                }
            },
            _ => Err(AttributesError::Invalid),
        }
    }

    /// Parses a block of attributes, e.g. `id: test, sys=[macos]`. Where
    /// the block names no id, `fresh` is given.
    pub fn parse_with(text: &str, fresh: String) -> (res: Result<Attributes, AttributesError>)
        ensures
            attributes_result(res) == parsed_of(text@, fresh@),
    {
        let config = match Config::load(text) {
            Ok(config) => config,
            Err(LoadError::Unsupported) => {
                return Err(AttributesError::Unsupported);
            },
            Err(LoadError::Syntax) => {
                return Err(AttributesError::Syntax);
            },
            Err(LoadError::NotATable) => {
                return Err(AttributesError::Invalid);
            },
        };
        match Attributes::from_config(&config) {
            Ok(attributes) => {
                if attributes.id.is_some() {
                    Ok(attributes)
                } else {
                    Ok(Attributes { id: Some(fresh), ..attributes })
                }
            },
            Err(e) => Err(e),
        }
    }

    /// Parses a block of attributes, e.g. `id: test, sys=[macos]`. Where
    /// the block names no id, a fresh unique one is given.
    pub fn parse(text: &str) -> (res: Result<Attributes, AttributesError>)
        ensures
            parse_gives(text@, attributes_result(res)),
    {
        Attributes::parse_with(text, fresh_id())
    }

    /// Tells whether no command, architecture, arguments or system are set.
    pub fn is_empty(&self) -> (res: bool)
        ensures
            res == (self@.cmd is None && self@.arch is None && self@.args is None && self@.sys
                is None),
    {
        self.cmd.is_none() && self.arch.is_none() && self.args.is_none() && self.sys.is_none()
    }
}

} // verus!
