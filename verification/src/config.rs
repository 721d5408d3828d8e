use vstd::prelude::*;

use crate::errors::TestsBinErrors;

verus! {

/// One lexical token handed to the code-generation entry points, reduced to
/// the four shapes the parameter grammar distinguishes: punctuation, quoted
/// literals, identifiers and grouped tokens (whose contents take no part in
/// the logic).
#[derive(Clone, Debug, PartialEq, Eq)]
pub enum MacroToken {
    /// A punctuation token, carrying its character.
    Punct(char),
    /// A literal token, carrying its text as rendered, quotes included.
    Literal(String),
    /// An identifier token, carrying its text.
    Ident(String),
    /// A delimited group of tokens.
    Group,
}

/// The process environment values the extraction reads, injected by the
/// caller so that the logic itself performs no environment lookup.
#[derive(Clone, Debug, PartialEq, Eq)]
pub struct MacroEnvironment {
    /// The manifest-root directory, when the host build tool provides it.
    pub manifest_dir: Option<String>,
    /// The base-folder override, when one is configured.
    pub base_folder: Option<String>,
}

/// The base folder used when no override is configured.
pub open spec fn spec_default_base_folder() -> Seq<char> {
    "tests/unit"@
}

/// The base folder an environment resolves to: the override verbatim when it
/// is present and non-empty, else the fixed default.
pub open spec fn spec_base_folder(env: MacroEnvironment) -> Seq<char> {
    match env.base_folder {
        Some(folder) => if folder@.len() > 0 {
            folder@
        } else {
            spec_default_base_folder()
        },
        None => spec_default_base_folder(),
    }
}

/// Returns the base folder where unit-test files are expected to live:
/// the configured override when present and non-empty, else `tests/unit`.
pub fn get_tests_bin_base_folder(env: &MacroEnvironment) -> (r: String)
    ensures
        r@ == spec_base_folder(*env),
{
    match &env.base_folder {
        Some(folder) => {
            if folder.as_str().unicode_len() > 0 {
                folder.clone()
            } else {
                String::from_str("tests/unit")
            }
        },
        None => String::from_str("tests/unit"),
    }
}

/// The text of a literal token with one matching pair of surrounding quote
/// characters removed; text not wrapped in quotes is kept as it is.
pub open spec fn spec_unquote(s: Seq<char>) -> Seq<char> {
    if s.len() >= 2 && s[0] == '"' && s[s.len() - 1] == '"' {
        s.subrange(1, s.len() - 1)
    } else {
        s
    }
}

/// Removes one matching pair of surrounding quote characters.
fn unquote_literal(s: &str) -> (r: String)
    ensures
        r@ == spec_unquote(s@),
{
    let len = s.unicode_len();
    if len >= 2 && s.get_char(0) == '"' && s.get_char(len - 1) == '"' {
        String::from_str(s.substring_char(1, len - 1))
    } else {
        String::from_str(s)
    }
}

/// The texts of the identifier tokens of a sequence, in order.
pub open spec fn ident_texts(tokens: Seq<MacroToken>) -> Seq<Seq<char>>
    decreases tokens.len(),
{
    if tokens.len() == 0 {
        Seq::empty()
    } else {
        let rest = ident_texts(tokens.drop_last());
        match tokens.last() {
            MacroToken::Ident(text) => rest.push(text@),
            _ => rest,
        }
    }
}

/// The parts concatenated with a single `_` between consecutive parts and
/// nothing at either end; empty when there is no part.
pub open spec fn join_names(parts: Seq<Seq<char>>) -> Seq<char>
    decreases parts.len(),
{
    if parts.len() == 0 {
        Seq::empty()
    } else if parts.len() == 1 {
        parts[0]
    } else {
        join_names(parts.drop_last()) + "_"@ + parts.last()
    }
}

/// The module name generated from a declaration's tokens: the identifier
/// texts joined by `_`.
pub open spec fn spec_generated_name(tokens: Seq<MacroToken>) -> Seq<char> {
    join_names(ident_texts(tokens))
}

/// Generates a module name from a declaration's tokens: every identifier
/// token contributes its text, consecutive contributions are separated by a
/// single `_`, every other token is ignored, and a declaration without
/// identifier tokens yields the empty string.
pub fn generate_test_mod_name(item: &Vec<MacroToken>) -> (r: String)
    ensures
        r@ == spec_generated_name(item@),
{
    let mut module_name = String::new();
    let mut parts: usize = 0;
    let mut idx: usize = 0;
    while idx < item.len()
        invariant
            idx <= item.len(),
            parts <= idx,
            parts == ident_texts(item@.take(idx as int)).len(),
            module_name@ == join_names(ident_texts(item@.take(idx as int))),
        decreases item.len() - idx,
    {
        proof {
            assert(item@.take(idx + 1).drop_last() =~= item@.take(idx as int));
            assert(item@.take(idx + 1).last() == item@[idx as int]);
        }
        match &item[idx] {
            MacroToken::Ident(text) => {
                if parts > 0 {
                    module_name.append("_");
                } else {
                    proof {
                        assert(ident_texts(item@.take(idx as int)).len() == 0);
                        assert(module_name@ =~= Seq::<char>::empty());
                    }
                }
                module_name.append(text.as_str());
                proof {
                    let before = ident_texts(item@.take(idx as int));
                    let after = ident_texts(item@.take(idx + 1));
                    assert(after =~= before.push(text@));
                    if before.len() == 0 {
                        assert(join_names(after) == after[0]);
                        assert(module_name@ =~= after[0]);
                    } else {
                        assert(after.drop_last() =~= before);
                        assert(join_names(after) == join_names(before) + "_"@ + text@);
                    }
                }
                parts = parts + 1;
            },
            _ => {
                proof {
                    assert(ident_texts(item@.take(idx + 1)) =~= ident_texts(
                        item@.take(idx as int),
                    ));
                }
            },
        }
        idx = idx + 1;
    }
    proof {
        assert(item@.take(item@.len() as int) =~= item@);
    }
    module_name
}

/// The parameters a code-generation entry point works from: where the bound
/// unit-test file lives and what the generated module is called.
#[derive(Clone, Debug, PartialEq, Eq)]
pub struct UnitTestParameters {
    /// The resolved path of the unit-test file.
    pub full_path: String,
    /// The name of the generated module.
    pub module_name: String,
}

/// The mathematical content of [`UnitTestParameters`].
#[verifier::ext_equal]
pub struct UnitTestParametersView {
    /// The resolved path of the unit-test file.
    pub full_path: Seq<char>,
    /// The name of the generated module.
    pub module_name: Seq<char>,
}

impl View for UnitTestParameters {
    type V = UnitTestParametersView;

    open spec fn view(&self) -> UnitTestParametersView {
        UnitTestParametersView { full_path: self.full_path@, module_name: self.module_name@ }
    }
}

/// Whether a token is the parameter separator: the punctuation `,`.
pub open spec fn is_separator(t: MacroToken) -> bool {
    t is Punct && t->Punct_0 == ','
}

/// The text a literal token carries; empty for any other token.
pub open spec fn literal_text(t: MacroToken) -> Seq<char> {
    match t {
        MacroToken::Literal(text) => text@,
        _ => Seq::empty(),
    }
}

/// The manifest-root directory an environment carries; empty when absent.
pub open spec fn spec_manifest_root(env: MacroEnvironment) -> Seq<char> {
    match env.manifest_dir {
        Some(root) => root@,
        None => Seq::empty(),
    }
}

/// The resolved path of a raw path literal: the manifest root, the base
/// folder and the unquoted literal text joined by `/`.
pub open spec fn spec_resolved_path(env: MacroEnvironment, raw: Seq<char>) -> Seq<char> {
    spec_manifest_root(env) + "/"@ + spec_base_folder(env) + "/"@ + spec_unquote(raw)
}

/// The parameter shape with a path literal alone.
pub open spec fn path_only_shape(attr: Seq<MacroToken>) -> bool {
    attr.len() == 1 && attr[0] is Literal
}

/// The parameter shape with a path literal and a trailing separator.
pub open spec fn path_trailing_separator_shape(attr: Seq<MacroToken>) -> bool {
    attr.len() == 2 && attr[0] is Literal && is_separator(attr[1])
}

/// The parameter shape with a path literal, a separator and a name literal.
pub open spec fn path_name_shape(attr: Seq<MacroToken>) -> bool {
    attr.len() == 3 && attr[0] is Literal && is_separator(attr[1]) && attr[2] is Literal
}

/// What parameter extraction yields on given parameter tokens, declaration
/// tokens and environment.
///
/// The tokens are walked in order and the first offence decides the failure:
/// a path literal is resolved before any later token is looked at, so an
/// absent manifest root is reported whenever the tokens start with a literal,
/// while every other departure from the grammar is an incorrect-parameters
/// failure.
pub open spec fn spec_extract(
    attr: Seq<MacroToken>,
    item: Seq<MacroToken>,
    env: MacroEnvironment,
) -> Result<UnitTestParametersView, TestsBinErrors> {
    if attr.len() >= 1 && attr[0] is Literal && env.manifest_dir is None {
        Err(TestsBinErrors::MissingEnvironment)
    } else if path_only_shape(attr) || path_trailing_separator_shape(attr) {
        Ok(
            UnitTestParametersView {
                full_path: spec_resolved_path(env, literal_text(attr[0])),
                module_name: spec_generated_name(item),
            },
        )
    } else if path_name_shape(attr) {
        Ok(
            UnitTestParametersView {
                full_path: spec_resolved_path(env, literal_text(attr[0])),
                module_name: spec_unquote(literal_text(attr[2])),
            },
        )
    } else {
        Err(TestsBinErrors::IncorrectParameters)
    }
}

/// Extracts the unit-test parameters: the resolved file path and the module
/// name, explicit or generated from the declaration tokens.
///
/// The parameter tokens must be a quoted path literal, optionally followed by
/// a separator `,` and a quoted module-name literal. The path is resolved as
/// `{manifest root}/{base folder}/{path}`; when no module name is given it is
/// generated from the declaration tokens. Every other token sequence is
/// rejected, and a path literal met while the manifest root is absent is a
/// distinct environment failure.
pub fn extract_unit_tests_parameters(
    attr: &Vec<MacroToken>,
    item: &Vec<MacroToken>,
    env: &MacroEnvironment,
) -> (r: Result<UnitTestParameters, TestsBinErrors>)
    ensures
        (match r {
            Ok(p) => spec_extract(attr@, item@, *env) matches Ok(v) && p@ == v,
            Err(e) => spec_extract(attr@, item@, *env) matches Err(e2) && e == e2,
        }),
{
    let mut full_path: Option<String> = None;
    let mut module_name: Option<String> = None;
    let mut separator: bool = false;
    let mut idx: usize = 0;

    while idx < attr.len()
        invariant
            idx <= attr.len(),
            idx <= 3,
            separator <==> idx >= 2,
            full_path is Some <==> idx >= 1,
            module_name is Some <==> idx >= 3,
            idx >= 1 ==> attr@[0] is Literal && env.manifest_dir is Some,
            idx >= 1 ==> (full_path matches Some(path) && path@ == spec_resolved_path(
                *env,
                literal_text(attr@[0]),
            )),
            idx >= 2 ==> is_separator(attr@[1]),
            idx >= 3 ==> attr@[2] is Literal,
            idx >= 3 ==> (module_name matches Some(name) && name@ == spec_unquote(
                literal_text(attr@[2]),
            )),
        decreases attr.len() - idx,
    {
        // Extra token once both parameters are filled.
        if full_path.is_some() && module_name.is_some() {
            return Err(TestsBinErrors::IncorrectParameters);
        }
        match &attr[idx] {
            MacroToken::Punct(c) => {
                if *c == ',' && full_path.is_some() && !separator {
                    separator = true;
                } else {
                    // Not the separator, or a separator that is first or
                    // repeated.
                    return Err(TestsBinErrors::IncorrectParameters);
                }
            },
            MacroToken::Literal(text) => {
                if full_path.is_none() {
                    // The first literal is the path; resolving it needs the
                    // manifest root.
                    match &env.manifest_dir {
                        Some(root) => {
                            let base = get_tests_bin_base_folder(env);
                            let unquoted = unquote_literal(text.as_str());
                            let mut path = root.clone();
                            path.append("/");
                            path.append(base.as_str());
                            path.append("/");
                            path.append(unquoted.as_str());
                            full_path = Some(path);
                        },
                        None => {
                            return Err(TestsBinErrors::MissingEnvironment);
                        },
                    }
                } else if separator {
                    // The second literal is the module name.
                    module_name = Some(unquote_literal(text.as_str()));
                } else {
                    // A second literal with no separator before it.
                    return Err(TestsBinErrors::IncorrectParameters);
                }
            },
            _ => {
                // Identifiers and groups have no place among the parameters.
                return Err(TestsBinErrors::IncorrectParameters);
            },
        }
        idx = idx + 1;
    }

    match full_path {
        Some(path) => {
            let name = match module_name {
                Some(name) => name,
                None => generate_test_mod_name(item),
            };
            Ok(UnitTestParameters { full_path: path, module_name: name })
        },
        None => Err(TestsBinErrors::IncorrectParameters),
    }
}

} // verus!
