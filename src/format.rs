//! Choice of the grammar in which a document is parsed.

use vstd::prelude::*;
use crate::text::{chars_of, ends_with, has_suffix};

verus! {

/// The grammar that a document's text is written in.
#[derive(Clone, Copy, Debug, PartialEq, Eq, Structural)]
pub enum InputFormat {
    Nickel,
    Json,
    Yaml,
    Toml,
}

/// The format that a resolved path selects: a structured-data suffix selects
/// that format, anything else the native configuration language.
pub open spec fn format_of(path: Seq<char>) -> InputFormat {
    if has_suffix(path, ".json"@) {
        InputFormat::Json
    } else if has_suffix(path, ".yaml"@) || has_suffix(path, ".yml"@) {
        InputFormat::Yaml
    } else if has_suffix(path, ".toml"@) {
        InputFormat::Toml
    } else {
        InputFormat::Nickel
    }
}

/// A resolved path ending in a structured-data suffix selects that format,
/// whatever precedes the suffix.
pub proof fn lemma_suffix_selects_format(stem: Seq<char>)
    ensures
        format_of(stem + ".json"@) == InputFormat::Json,
        format_of(stem + ".yaml"@) == InputFormat::Yaml,
        format_of(stem + ".yml"@) == InputFormat::Yaml,
        format_of(stem + ".toml"@) == InputFormat::Toml,
{
    reveal_strlit(".json");
    reveal_strlit(".yaml");
    reveal_strlit(".yml");
    reveal_strlit(".toml");
    let json = stem + ".json"@;
    assert(json.subrange(json.len() - 5, json.len() as int) =~= ".json"@);
    let yaml = stem + ".yaml"@;
    assert(yaml.subrange(yaml.len() - 5, yaml.len() as int) =~= ".yaml"@);
    assert(!has_suffix(yaml, ".json"@)) by {
        assert(yaml.subrange(yaml.len() - 5, yaml.len() as int)[1] != ".json"@[1]);
    }
    let yml = stem + ".yml"@;
    assert(yml.subrange(yml.len() - 4, yml.len() as int) =~= ".yml"@);
    assert(!has_suffix(yml, ".json"@)) by {
        if has_suffix(yml, ".json"@) {
            assert(yml.subrange(yml.len() - 5, yml.len() as int)[4] == ".json"@[4]);
        }
    }
    assert(!has_suffix(yml, ".yaml"@)) by {
        if has_suffix(yml, ".yaml"@) {
            assert(yml.subrange(yml.len() - 5, yml.len() as int)[2] == ".yaml"@[2]);
            assert(yml[yml.len() - 3] == ".yml"@[1]);
        }
    }
    let toml = stem + ".toml"@;
    assert(toml.subrange(toml.len() - 5, toml.len() as int) =~= ".toml"@);
    assert(!has_suffix(toml, ".json"@)) by {
        assert(toml.subrange(toml.len() - 5, toml.len() as int)[1] != ".json"@[1]);
    }
    assert(!has_suffix(toml, ".yaml"@)) by {
        assert(toml.subrange(toml.len() - 5, toml.len() as int)[1] != ".yaml"@[1]);
    }
    assert(!has_suffix(toml, ".yml"@)) by {
        if has_suffix(toml, ".yml"@) {
            assert(toml.subrange(toml.len() - 4, toml.len() as int)[1] == ".yml"@[1]);
            assert(toml[toml.len() - 3] == ".toml"@[2]);
        }
    }
}

/// The format in which the document named by `resolved_path` is parsed.
pub fn input_format(resolved_path: &str) -> (r: InputFormat)
    ensures
        r == format_of(resolved_path@),
{
    let p = chars_of(resolved_path);
    if ends_with(&p, ".json") {
        InputFormat::Json
    } else if ends_with(&p, ".yaml") || ends_with(&p, ".yml") {
        InputFormat::Yaml
    } else if ends_with(&p, ".toml") {
        InputFormat::Toml
    } else {
        InputFormat::Nickel
    }
}

} // verus!
