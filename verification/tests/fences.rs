use gem::fenced_attributes::attributes::{Attributes, AttributesError};
use gem::fenced_attributes::code_chunk::{line_is_fence, CodeChunk, FenceHeader};
use gem::fenced_attributes::config::{
    plain_value, Config, ConfigEntry, ConfigItem, ConfigValue, LoadError,
};

#[test]
fn parse_attributes_test() {
    let attributes = Attributes::parse("");
    assert_eq!(attributes.is_ok(), true);

    let attributes = attributes.unwrap();
    assert_eq!(attributes.id.is_some(), true);
    assert_eq!(attributes.is_empty(), true);

    let attributes = Attributes::parse("{id: test, sys=[macos], args=[test1, test2]}}");
    assert_eq!(attributes.is_ok(), true);

    let attributes = attributes.unwrap();
    assert_eq!(attributes.is_empty(), false);
    assert_eq!(attributes.id.unwrap(), "test");
    assert_eq!(attributes.sys, Some(vec!["macos".to_string()]));
    assert_eq!(attributes.arch.is_none(), true);
    assert_eq!(attributes.cmd.is_none(), true);
    assert_eq!(
        attributes.args,
        Some(vec!["test1".to_string(), "test2".to_string()])
    );
}

#[test]
fn indented_code_fences() {
    let fences = String::from("```");
    let chunk = CodeChunk::parse_fences(fences);
    assert_eq!(chunk.is_none(), true);

    let fences = String::from("```java");
    let chunk = CodeChunk::parse_fences(fences).unwrap();
    assert_eq!(chunk.lang, Some(String::from("java")));
    assert_eq!(chunk.attributes.is_empty(), true);

    let fences = String::from("```bash {id: test, sys=[macos], args=[test1, test2]}}");
    let chunk = CodeChunk::parse_fences(fences).unwrap();
    assert_eq!(chunk.lang, Some(String::from("bash")));
    assert_eq!(chunk.attributes.is_empty(), false);
}

#[test]
fn parse_gives_a_fresh_id_each_time() {
    let first = Attributes::parse("cmd=sh").unwrap();
    let second = Attributes::parse("cmd=sh").unwrap();
    let a = first.id.clone().unwrap();
    let b = second.id.clone().unwrap();
    assert_eq!(a.len(), 36);
    assert_eq!(b.len(), 36);
    assert_ne!(a, b);
    assert_eq!(first.cmd, Some("sh".to_string()));
}

#[test]
fn parse_reads_every_key() {
    let text = "id=x, sys=[linux, macos], linux_distro=[debian], arch=[x86_64], cmd=sh, \
                args=[\"-c\", 2], path=\"/bin:/usr/bin\", as_file=false, stdout=no, \
                allow_warnings=off, allow_errors=yes, with_sudo=true, other=1";
    let a = Attributes::parse(text).unwrap();
    assert_eq!(
        a,
        Attributes {
            id: Some("x".to_string()),
            sys: Some(vec!["linux".to_string(), "macos".to_string()]),
            linux_distro: Some(vec!["debian".to_string()]),
            arch: Some(vec!["x86_64".to_string()]),
            cmd: Some("sh".to_string()),
            args: Some(vec!["-c".to_string(), "2".to_string()]),
            path: Some("/bin:/usr/bin".to_string()),
            as_file: false,
            stdout: false,
            allow_warnings: false,
            allow_errors: true,
            with_sudo: true,
        }
    );
}

#[test]
fn parse_defaults() {
    let a = Attributes::parse("id=only").unwrap();
    assert_eq!(
        a,
        Attributes {
            id: Some("only".to_string()),
            as_file: true,
            stdout: true,
            allow_warnings: true,
            ..Attributes::default()
        }
    );
    let d = Attributes::default();
    assert_eq!(d.id, None);
    assert_eq!((d.as_file, d.stdout, d.allow_warnings), (false, false, false));
    assert_eq!((d.allow_errors, d.with_sudo), (false, false));
}

#[test]
fn parse_rejects_wrong_shapes() {
    assert_eq!(Attributes::parse("stdout=maybe"), Err(AttributesError::Invalid));
    assert_eq!(Attributes::parse("sys=linux"), Err(AttributesError::Invalid));
    assert_eq!(Attributes::parse("cmd=[a, b]"), Err(AttributesError::Invalid));
    assert_eq!(Attributes::parse("args=[[a]]"), Err(AttributesError::Invalid));
    assert_eq!(Attributes::parse("stdout=null"), Err(AttributesError::Invalid));
    assert_eq!(Attributes::parse("cmd=null, id=n").unwrap().cmd, None);
}

fn scalar(text: &str) -> ConfigValue {
    ConfigValue::Scalar { text: text.to_string(), flag: None }
}

fn item(text: &str) -> ConfigItem {
    ConfigItem::Scalar { text: text.to_string(), flag: None }
}

fn entry(key: &str, value: ConfigValue) -> ConfigEntry {
    ConfigEntry { key: key.to_string(), value }
}

#[test]
fn from_config_reads_a_table() {
    let config = Config {
        entries: vec![
            entry("cmd", scalar("echo")),
            entry("args", ConfigValue::List(vec![item("hi"), item("there")])),
            entry("stdout", ConfigValue::Scalar { text: "false".to_string(), flag: Some(false) }),
            entry("unknown", ConfigValue::Null),
            entry("cmd", scalar("ignored")),
        ],
    };
    let a = Attributes::from_config(&config).unwrap();
    assert_eq!(a.id, None);
    assert_eq!(a.cmd, Some("echo".to_string()));
    assert_eq!(a.args, Some(vec!["hi".to_string(), "there".to_string()]));
    assert_eq!((a.as_file, a.stdout, a.allow_warnings), (true, false, true));
    assert_eq!((a.allow_errors, a.with_sudo), (false, false));
    assert_eq!(config.get("args").is_some(), true);
    assert_eq!(config.get("absent"), None);
}

#[test]
fn from_config_lists_stop_at_what_is_unresolved() {
    let list = |items: Vec<ConfigItem>| Config { entries: vec![entry("sys", ConfigValue::List(items))] };
    let a = Attributes::from_config(&list(vec![item("a"), ConfigItem::Bad, ConfigItem::Null]));
    assert_eq!(a.unwrap().sys, Some(vec!["a".to_string()]));
    let b = Attributes::from_config(&list(vec![item("a"), ConfigItem::Null]));
    assert_eq!(b, Err(AttributesError::Invalid));
    let c = Attributes::from_config(&list(vec![ConfigItem::Nested]));
    assert_eq!(c, Err(AttributesError::Invalid));
    let d = Attributes::from_config(&list(vec![]));
    assert_eq!(d.unwrap().sys, Some(vec![]));
}

#[test]
fn from_config_flags_and_texts() {
    let with = |key: &str, value: ConfigValue| Config { entries: vec![entry(key, value)] };
    assert_eq!(
        Attributes::from_config(&with("with_sudo", ConfigValue::Bad)),
        Err(AttributesError::Invalid)
    );
    assert_eq!(
        Attributes::from_config(&with("with_sudo", scalar("perhaps"))),
        Err(AttributesError::Invalid)
    );
    assert_eq!(Attributes::from_config(&with("id", ConfigValue::Bad)).unwrap().id, None);
    assert_eq!(Attributes::from_config(&with("id", ConfigValue::Null)).unwrap().id, None);
    assert_eq!(
        Attributes::from_config(&with("path", ConfigValue::List(vec![]))),
        Err(AttributesError::Invalid)
    );
    assert_eq!(
        Attributes::from_config(&with("arch", scalar("x86_64"))),
        Err(AttributesError::Invalid)
    );
}

fn header(lang: &str, attributes: &str) -> Option<FenceHeader> {
    Some(FenceHeader { lang: lang.to_string(), attributes: attributes.to_string() })
}

#[test]
fn split_header_cases() {
    assert_eq!(CodeChunk::split_header("```"), None);
    assert_eq!(CodeChunk::split_header("``"), None);
    assert_eq!(CodeChunk::split_header("text"), None);
    assert_eq!(CodeChunk::split_header("````"), header("`", ""));
    assert_eq!(CodeChunk::split_header("~~~~"), header("~", ""));
    assert_eq!(CodeChunk::split_header("```sh"), header("sh", ""));
    assert_eq!(CodeChunk::split_header("   ~~~py  "), header("py", ""));
    assert_eq!(CodeChunk::split_header("``` sh"), None);
    assert_eq!(CodeChunk::split_header("```sh {cmd=echo args=[hi]}"), header("sh", "cmd=echo args=[hi]"));
    assert_eq!(CodeChunk::split_header("```{a}"), header("", "a"));
    assert_eq!(CodeChunk::split_header("``` {a}"), header("", "a"));
    assert_eq!(CodeChunk::split_header("```sh{a}b}"), header("sh", "a"));
    assert_eq!(CodeChunk::split_header("```sh x {a}"), None);
    assert_eq!(CodeChunk::split_header("```sh {a"), None);
    assert_eq!(CodeChunk::split_header("```sh {a\nb}"), None);
    assert_eq!(CodeChunk::split_header("\t```sh"), None);
    assert_eq!(CodeChunk::split_header("```sh\u{a0}{a}"), header("sh", "a"));
}

#[test]
fn assemble_falls_back_to_no_attributes() {
    let chunk = CodeChunk::assemble("sh".to_string(), Err(AttributesError::Syntax), "f".to_string());
    let unset = Attributes {
        id: Some("f".to_string()),
        sys: None,
        linux_distro: None,
        arch: None,
        cmd: None,
        args: None,
        path: None,
        as_file: true,
        stdout: true,
        allow_warnings: true,
        allow_errors: false,
        with_sudo: false,
    };
    assert_eq!(chunk, CodeChunk { lang: Some("sh".to_string()), attributes: unset.clone() });
    assert_eq!(Attributes::unset("f".to_string()), unset);
    let given = Attributes { cmd: Some("x".to_string()), id: Some("g".to_string()), ..Attributes::default() };
    let chunk = CodeChunk::assemble("sh".to_string(), Ok(given.clone()), "f".to_string());
    assert_eq!(chunk.attributes, given);
    let nameless = Attributes { cmd: Some("x".to_string()), ..Attributes::default() };
    let chunk = CodeChunk::assemble("sh".to_string(), Ok(nameless.clone()), "f".to_string());
    assert_eq!(chunk.attributes, Attributes { id: Some("f".to_string()), ..nameless });
}

#[test]
fn fences_of_the_document() {
    assert!(line_is_fence("```"));
    assert!(line_is_fence("~~~"));
    assert!(line_is_fence("````sh {a}"));
    assert!(!line_is_fence("``"));
    assert!(!line_is_fence(" ```"));
    assert!(!line_is_fence("~~`"));
    assert!(!line_is_fence(""));
}

/// The three patterns of the fence grammar.
fn patterns() -> (regex::Regex, regex::Regex, regex::Regex) {
    (
        regex::Regex::new(r"^ *(`{3,}([^\n]*)|~{3,})").unwrap(),
        regex::Regex::new(r"^ *(`{3,}|~{3,})([^\s{]*)\s*\{(.*?)\}").unwrap(),
        regex::Regex::new(r"^ *(`{3,}|~{3,})([^\s]+)").unwrap(),
    )
}

/// The header that the three patterns give.
fn by_patterns(patterns: &(regex::Regex, regex::Regex, regex::Regex), line: &str) -> Option<(String, String)> {
    let (fenced, in_brackets, only_lang) = patterns;
    if !fenced.is_match(line) {
        return None;
    }
    let line = line.trim();
    let captures = if line.contains("{") {
        in_brackets.captures(line)
    } else {
        only_lang.captures(line)
    };
    let captures = captures?;
    let lang = captures.get(2)?.as_str().to_string();
    let attributes = captures.get(3).map(|m| m.as_str().to_string()).unwrap_or_default();
    Some((lang, attributes))
}

#[test]
fn split_header_agrees_with_the_patterns() {
    let patterns = patterns();
    let heads = ["", " ", "   ", "\t", "x", "`", "``", "```", "````", "`````", "~~", "~~~", "~~~~~",
        "```~~~", "~~~```", "\u{a0}```", " ```"];
    let pieces = ["", " ", "\t", "sh", "py3", "{", "}", "{a=b}", "{id: t, sys=[m]}", "\n", "x y",
        "\u{a0}", "{}", "`", "~", "é{", "}{"];
    let mut count = 0;
    for a in heads {
        for b in pieces {
            for c in pieces {
                let line = format!("{}{}{}", a, b, c);
                let ours = CodeChunk::split_header(&line).map(|h| (h.lang, h.attributes));
                assert_eq!(ours, by_patterns(&patterns, &line), "line {:?}", line);
                count += 1;
            }
        }
    }
    assert_eq!(count, 17 * 17 * 17);
}

#[test]
fn loader_reads_the_relaxed_grammar() {
    let config = Config::load("cmd=echo, args=[hi], n: 2, ok = yes").unwrap();
    assert_eq!(config.entries.len(), 4);
    assert_eq!(config.get("cmd"), Some(&scalar("echo")));
    assert_eq!(config.get("args"), Some(&ConfigValue::List(vec![item("hi")])));
    assert_eq!(config.get("n"), Some(&scalar("2")));
    assert_eq!(
        config.get("ok"),
        Some(&ConfigValue::Scalar { text: "yes".to_string(), flag: Some(true) })
    );
    let config = Config::load("id=a, include \"other\", cmd=null").unwrap();
    assert_eq!(config.get("other"), Some(&ConfigValue::Bad));
    assert_eq!(config.get("cmd"), Some(&ConfigValue::Null));
    let config = Config::load("args.1=b, args.0=a").unwrap();
    assert_eq!(config.get("args"), Some(&ConfigValue::List(vec![item("a"), item("b")])));
}

/// Every character that is handed to the loader.
fn plain_chars() -> Vec<char> {
    ('\0'..='\u{7f}').collect()
}

/// Whether a text is kept from the loader.
fn refused(text: &str) -> bool {
    let chars: Vec<char> = text.chars().collect();
    let deep = text.matches(|c| c == '[' || c == '{').count() > 16;
    let unpaired = text.contains('\\') || text.contains('#') || text.contains("//")
        || text.contains("\"\"\"");
    let mut quotes = 0;
    let mut bare = false;
    let mut delicate = false;
    for (i, c) in chars.iter().enumerate() {
        let next = chars.get(i + 1);
        if !c.is_ascii() || (*c == '$' && next == Some(&'{')) || (*c == '+' && next == Some(&'=')) {
            delicate = true;
            if quotes % 2 == 0 {
                bare = true;
            }
        }
        if *c == '"' {
            quotes += 1;
        }
    }
    chars.len() > 1024 || text.contains("\\u") || deep || bare || (delicate && unpaired)
}

fn probe(text: &str) {
    println!("{:?}", text);
    match Attributes::parse(text) {
        Ok(attributes) => {
            assert!(attributes.id.is_some());
            assert!(!refused(text));
        }
        Err(error) => assert_eq!(error == AttributesError::Unsupported, refused(text)),
    }
}

#[test]
fn loader_returns_on_odd_texts() {
    let pieces = ["", "{", "}", "[", "]", "=", ":", ",", "\"", "a", ".", "\n", "#", "//",
        "include ", "+=", "\"\"\"", "1", "-", "e", " ", "null", "true", "x.y", "\t", "\r",
        "url(", "file(", ")", "1.5", "10kB", "'", "?", "*", "include \"a\"", "0", "on", "+",
        "false", "1e5", ".5", "-1", "a.b.c", "\"a.b\"", "[]", "{}", "$", "\\", "\\n", "\\\"",
        "\\\\", "$a", "u", "\\/", "\\b"];
    for a in pieces {
        for b in pieces {
            for c in pieces {
                probe(&format!("{}{}{}", a, b, c));
            }
        }
    }
}

#[test]
fn loader_returns_on_odd_nestings() {
    let pieces = ["{", "}", "[", "]", "=", ",", "\"", "a", ".", "\n", "#", "include ", "+=", "1",
        " ", ":", "true", "$", "\\"];
    for a in pieces {
        for b in pieces {
            for c in pieces {
                for d in pieces {
                    probe(&format!("{}{}{}{}", a, b, c, d));
                    probe(&format!("a={}{}{}{}", a, b, c, d));
                }
            }
        }
    }
}

#[test]
fn loader_returns_on_every_pair_of_characters() {
    let chars = plain_chars();
    assert_eq!(chars.len(), 128);
    for a in &chars {
        for b in &chars {
            for text in [
                format!("{}{}", a, b),
                format!("k={}{}", a, b),
                format!("k=[{}{}]", a, b),
                format!("k=\"{}{}\"", a, b),
                format!("{}k{}=1", a, b),
                format!("{{{}{}}}", a, b),
                format!("k={}x{}", a, b),
                format!("args=[a{}b{}c]", a, b),
                format!("k{}v{}", a, b),
                format!("k=1{}2{}3", a, b),
            ] {
                probe(&text);
            }
        }
    }
}

/// A small generator of numbers, the same on every run.
fn next(seed: &mut u64) -> usize {
    *seed = seed.wrapping_mul(6364136223846793005).wrapping_add(1442695040888963407);
    (*seed >> 33) as usize
}

fn shuffled(seed: u64, rounds: usize, tokens: &[&str]) {
    let mut seed = seed;
    for _ in 0..rounds {
        let length = 1 + next(&mut seed) % 9;
        let mut text = String::new();
        for _ in 0..length {
            text.push_str(tokens[next(&mut seed) % tokens.len()]);
        }
        probe(&text);
    }
}

#[test]
fn loader_returns_on_shuffled_tokens() {
    let tokens = ["{", "}", "[", "]", "=", ":", ",", "\"", "a", "b", ".", "\n", "#", "//",
        "include ", "+=", "\"\"\"", "1", "-", "e", " ", "null", "true", "false", "\t", "'", "?",
        "*", "0", "+", "id", "sys", "args", "cmd", "\"x y\"", "&", "!", "@", "^", "`", "|", "~",
        "$", "\\", "\\\\", "\\\"", "\\n", "u", "$$"];
    shuffled(1, 60000, &tokens);
}

#[test]
fn loader_returns_on_shuffled_values() {
    let tokens = ["[", "]", "=", ",", "\"", "a", ".", "1", " ", "{", "}", ":", "k", "\n", "$",
        "\\"];
    shuffled(2, 80000, &tokens);
}

#[test]
fn loader_is_not_handed_what_it_may_not_survive() {
    for text in ["id=${HOME}", "a=${1.}", "id=\"\\u12\\u12\"", "id=\u{e9}", "${", "\\u",
        "a=${?b}", "a+={b+=1}", "id=\"x\" \u{e9}", "# \"\n id=\u{e9} \"", "a=\"\\\"\" \u{e9} \"\"",
        "a=\"\"\"\u{e9}\"\"\"", "a=\"\u{e9}\", b=\"//\""] {
        assert_eq!(Attributes::parse(text), Err(AttributesError::Unsupported), "text {:?}", text);
        assert_eq!(Config::load(text), Err(LoadError::Unsupported), "text {:?}", text);
    }
    let chunk = CodeChunk::parse_fences("```sh {id=${HOME}}".to_string()).unwrap();
    let id = chunk.attributes.id.clone().unwrap();
    assert_eq!(id.len(), 36);
    assert_eq!(chunk.attributes, Attributes::unset(id));
    assert!(chunk.attributes.stdout && chunk.attributes.as_file && chunk.attributes.allow_warnings);
    let wide = Attributes::parse("id=\"\u{e9}t\u{e9}\", args=[\"h\u{e9}llo\", \"\u{65e5}\u{672c}\"]").unwrap();
    assert_eq!(wide.id, Some("\u{e9}t\u{e9}".to_string()));
    assert_eq!(wide.args, Some(vec!["h\u{e9}llo".to_string(), "\u{65e5}\u{672c}".to_string()]));
    assert_eq!(Attributes::parse("{"), Err(AttributesError::Syntax));
    let quoted = Attributes::parse("id=a, args=[\"-c\", \"echo $HOME\"], path=\"C:\\\\bin\"").unwrap();
    assert_eq!(quoted.args, Some(vec!["-c".to_string(), "echo $HOME".to_string()]));
    assert_eq!(quoted.path, Some("C:\\bin".to_string()));
    let shell = Attributes::parse("id=a, args=[\"-c\", \"echo ${HOME} x+=1\"]").unwrap();
    assert_eq!(shell.args, Some(vec!["-c".to_string(), "echo ${HOME} x+=1".to_string()]));
}

#[test]
fn loader_is_not_handed_long_or_deep_texts() {
    let deep = "[".repeat(17);
    assert_eq!(Attributes::parse(&deep), Err(AttributesError::Unsupported));
    let deep = format!("a={}1", "{b=".repeat(17));
    assert_eq!(Config::load(&deep), Err(LoadError::Unsupported));
    let long = "a".repeat(1025);
    assert_eq!(Attributes::parse(&long), Err(AttributesError::Unsupported));
    let dotted = format!("{}a=1", "a.".repeat(510));
    assert_ne!(Attributes::parse(&dotted), Err(AttributesError::Unsupported));
    let long = format!("id={}", "a".repeat(1021));
    assert_eq!(Attributes::parse(&long).unwrap().id.unwrap().len(), 1021);
    for piece in ["[", "{", "{a=", "a=[", "[{a=", "a{b=["] {
        for depth in 1..=16 {
            let openings = piece.matches(|c| c == '[' || c == '{').count();
            for tail in ["", "1", "]", "}"] {
                let text = format!("{}{}", piece.repeat(depth / openings), tail);
                assert_ne!(Attributes::parse(&text), Err(AttributesError::Unsupported));
            }
        }
    }
    for piece in ["a.", "a=", "a ", "a,", "a\n", "#\n", "\"a\"", "1.5", "a:", "a=1,", "\"\u{e9}\""] {
        let text = piece.repeat(1024 / piece.chars().count());
        assert_ne!(Attributes::parse(&text), Err(AttributesError::Unsupported));
    }
}

#[test]
fn load_errors() {
    assert_eq!(Config::load("{"), Err(LoadError::Syntax));
    assert_eq!(Config::load("a=${b}"), Err(LoadError::Unsupported));
    assert_eq!(Config::load("[a, b]"), Ok(Config { entries: vec![] }));
    assert_eq!(Config::load("0=a").unwrap().get("0"), Some(&scalar("a")));
}

#[test]
fn split_header_agrees_with_the_patterns_on_shuffled_lines() {
    let patterns = patterns();
    let tokens = ["`", "``", "```", "~", "~~~", " ", "  ", "\t", "sh", "{", "}", "a=b", ",", "\n",
        "\r", "\u{a0}", "\u{2003}", "é", "x", "[", "]", "\"", "{}", "}{", "\u{85}", ":"];
    let mut seed = 7;
    let mut with_header = 0;
    for round in 0..120000 {
        let length = 1 + next(&mut seed) % 8;
        let mut line = String::new();
        if round % 2 == 0 {
            line.push_str(["```", "~~~", "````", " ```", "  ~~~~"][next(&mut seed) % 5]);
        }
        for _ in 0..length {
            line.push_str(tokens[next(&mut seed) % tokens.len()]);
        }
        let ours = CodeChunk::split_header(&line).map(|h| (h.lang, h.attributes));
        if ours.is_some() {
            with_header += 1;
        }
        assert_eq!(ours, by_patterns(&patterns, &line), "line {:?}", line);
        assert_eq!(line_is_fence(&line), line.starts_with("```") || line.starts_with("~~~"));
    }
    assert!(with_header > 10000);
}

#[test]
fn plain_form_of_a_value() {
    assert_eq!(plain_value(item("a"), None), scalar("a"));
    assert_eq!(plain_value(ConfigItem::Null, None), ConfigValue::Null);
    assert_eq!(plain_value(ConfigItem::Bad, None), ConfigValue::Bad);
    assert_eq!(plain_value(ConfigItem::Nested, None), ConfigValue::Bad);
    assert_eq!(
        plain_value(ConfigItem::Nested, Some(vec![item("a"), ConfigItem::Bad])),
        ConfigValue::List(vec![item("a"), ConfigItem::Bad])
    );
    assert_eq!(plain_value(item("a"), Some(vec![])), ConfigValue::List(vec![]));
    let flag = ConfigItem::Scalar { text: "on".to_string(), flag: Some(true) };
    assert_eq!(
        plain_value(flag, None),
        ConfigValue::Scalar { text: "on".to_string(), flag: Some(true) }
    );
}

#[test]
fn loader_returns_on_quoted_characters_outside_ascii() {
    let tokens = ["\"", "\u{e9}", "\u{a0}", "\u{65e5}", "\u{1f600}", "a", " ", "=", ",", "[", "]",
        "{", "}", "\n", ":", "\"\u{e9}\"", "\"a b\"", ".", "1", "'", "\"\"", "/", "\r", "\t",
        "$", "+", "${", "+=", "\"${a}\"", "\"+=\""];
    let mut seed = 11;
    let mut read = 0;
    for _ in 0..150000 {
        let length = 1 + next(&mut seed) % 9;
        let mut text = String::new();
        for _ in 0..length {
            text.push_str(tokens[next(&mut seed) % tokens.len()]);
        }
        probe(&text);
        if !(text.is_ascii() && !text.contains("${") && !text.contains("+=")) && !refused(&text) {
            read += 1;
        }
    }
    assert!(read > 5000);
    for a in tokens {
        for b in tokens {
            for c in tokens {
                probe(&format!("k=\"{}{}{}\"", a, b, c));
                probe(&format!("\"{}\"={}{}", a, b, c));
                probe(&format!("k=[\"{}\", {}{}]", a, b, c));
            }
        }
    }
}

#[test]
fn parse_with_gives_the_id_only_where_none_is_named() {
    let named = Attributes::parse_with("id=n, cmd=sh", "fresh".to_string()).unwrap();
    assert_eq!(named.id, Some("n".to_string()));
    let nameless = Attributes::parse_with("cmd=sh", "fresh".to_string()).unwrap();
    assert_eq!(nameless.id, Some("fresh".to_string()));
    assert_eq!(nameless.cmd, Some("sh".to_string()));
    assert_eq!(
        Attributes::parse_with("", "fresh".to_string()),
        Ok(Attributes::unset("fresh".to_string()))
    );
    assert_eq!(Attributes::parse_with("{", "f".to_string()), Err(AttributesError::Syntax));
    assert_eq!(Attributes::parse_with("a=${b}", "f".to_string()), Err(AttributesError::Unsupported));
    assert_eq!(Attributes::parse_with("stdout=7", "f".to_string()), Err(AttributesError::Invalid));
    assert_eq!(
        Attributes::parse_with("id=x, stdout=off", "f".to_string()),
        Attributes::parse("id=x, stdout=off")
    );
}

#[test]
fn parse_fences_with_reads_the_block() {
    let chunk = CodeChunk::parse_fences_with("```sh {cmd=echo, args=[hi]}", "f").unwrap();
    assert_eq!(chunk.lang, Some("sh".to_string()));
    assert_eq!(
        chunk.attributes,
        Attributes {
            cmd: Some("echo".to_string()),
            args: Some(vec!["hi".to_string()]),
            ..Attributes::unset("f".to_string())
        }
    );
    let broken = CodeChunk::parse_fences_with("```sh {stdout=perhaps}", "f").unwrap();
    assert_eq!(broken.attributes, Attributes::unset("f".to_string()));
    let bare = CodeChunk::parse_fences_with("```sh", "f").unwrap();
    assert_eq!(bare.attributes, Attributes::unset("f".to_string()));
    assert_eq!(CodeChunk::parse_fences_with("```", "f"), None);
    assert_eq!(
        CodeChunk::parse_fences_with("~~~py {id=k}", "f"),
        CodeChunk::parse_fences("~~~py {id=k}".to_string())
    );
}
