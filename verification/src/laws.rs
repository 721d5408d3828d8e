use vstd::prelude::*;

use crate::config::{
    spec_extract, spec_base_folder, spec_default_base_folder, spec_generated_name,
    spec_resolved_path, spec_unquote, literal_text, is_separator, path_only_shape,
    path_trailing_separator_shape, path_name_shape, MacroEnvironment, MacroToken,
    UnitTestParameters, UnitTestParametersView, ident_texts,
};
use crate::errors::TestsBinErrors;

verus! {

/// How many literal tokens a sequence holds.
pub open spec fn literal_count(tokens: Seq<MacroToken>) -> nat
    decreases tokens.len(),
{
    if tokens.len() == 0 {
        0
    } else {
        literal_count(tokens.drop_last()) + (if tokens.last() is Literal {
            1nat
        } else {
            0nat
        })
    }
}

/// How many separator tokens a sequence holds.
pub open spec fn separator_count(tokens: Seq<MacroToken>) -> nat
    decreases tokens.len(),
{
    if tokens.len() == 0 {
        0
    } else {
        separator_count(tokens.drop_last()) + (if is_separator(tokens.last()) {
            1nat
        } else {
            0nat
        })
    }
}

/// Whether a sequence holds a token that can never stand among the
/// parameters: an identifier or a group.
pub open spec fn has_non_parameter_token(tokens: Seq<MacroToken>) -> bool {
    exists|i: int|
        0 <= i < tokens.len() && (tokens[i] is Ident || tokens[i] is Group)
}

/// A sequence that holds a literal holds at least one literal.
proof fn lemma_literal_count_positive(tokens: Seq<MacroToken>, i: int)
    requires
        0 <= i < tokens.len(),
        tokens[i] is Literal,
    ensures
        literal_count(tokens) >= 1,
    decreases tokens.len(),
{
    if i < tokens.len() - 1 {
        lemma_literal_count_positive(tokens.drop_last(), i);
    }
}

/// The token counts of the three accepted parameter shapes.
proof fn lemma_counts_of_shapes(attr: Seq<MacroToken>)
    ensures
        path_only_shape(attr) ==> literal_count(attr) == 1 && separator_count(attr) == 0
            && !has_non_parameter_token(attr),
        path_trailing_separator_shape(attr) ==> literal_count(attr) == 1 && separator_count(attr)
            == 1 && !has_non_parameter_token(attr),
        path_name_shape(attr) ==> literal_count(attr) == 2 && separator_count(attr) == 1
            && !has_non_parameter_token(attr),
{
    if path_only_shape(attr) {
        assert(attr.last() == attr[0]);
        assert(attr.drop_last().len() == 0);
        assert(literal_count(attr.drop_last()) == 0);
        assert(separator_count(attr.drop_last()) == 0);
        assert forall|i: int| 0 <= i < attr.len() implies !(attr[i] is Ident || attr[i]
            is Group) by {
            assert(i == 0);
        }
    }
    if path_trailing_separator_shape(attr) {
        let s1 = attr.drop_last();
        assert(s1.len() == 1);
        assert(s1.last() == attr[0]);
        assert(s1.drop_last().len() == 0);
        assert(literal_count(s1.drop_last()) == 0);
        assert(separator_count(s1.drop_last()) == 0);
        assert(literal_count(s1) == 1);
        assert(separator_count(s1) == 0);
        assert(attr.last() == attr[1]);
        assert forall|i: int| 0 <= i < attr.len() implies !(attr[i] is Ident || attr[i]
            is Group) by {
            if i != 0 {
                assert(i == 1);
            }
        }
    }
    if path_name_shape(attr) {
        let s2 = attr.drop_last();
        let s1 = s2.drop_last();
        assert(s2.len() == 2 && s1.len() == 1);
        assert(s1.last() == attr[0]);
        assert(s2.last() == attr[1]);
        assert(attr.last() == attr[2]);
        assert(s1.drop_last().len() == 0);
        assert(literal_count(s1.drop_last()) == 0);
        assert(separator_count(s1.drop_last()) == 0);
        assert(literal_count(s1) == 1);
        assert(separator_count(s1) == 0);
        assert(literal_count(s2) == 1);
        assert(separator_count(s2) == 1);
        assert forall|i: int| 0 <= i < attr.len() implies !(attr[i] is Ident || attr[i]
            is Group) by {
            if i != 0 && i != 1 {
                assert(i == 2);
            }
        }
    }
}

/// A single path literal, with no separator and no explicit name, resolves
/// the path as `{manifest root}/{base folder}/{path}` and takes the module
/// name generated from the declaration tokens.
pub proof fn lemma_single_literal(
    attr: Seq<MacroToken>,
    item: Seq<MacroToken>,
    env: MacroEnvironment,
)
    requires
        attr.len() == 1,
        attr[0] is Literal,
        env.manifest_dir is Some,
    ensures
        spec_extract(attr, item, env) matches Ok(v) && v.full_path == spec_resolved_path(
            env,
            literal_text(attr[0]),
        ) && v.module_name == spec_generated_name(item),
{
}

/// A path literal, a separator and a name literal resolve the path as
/// `{manifest root}/{base folder}/{path}` and take the unquoted name literal
/// as the module name.
pub proof fn lemma_path_and_name(
    attr: Seq<MacroToken>,
    item: Seq<MacroToken>,
    env: MacroEnvironment,
)
    requires
        attr.len() == 3,
        attr[0] is Literal,
        is_separator(attr[1]),
        attr[2] is Literal,
        env.manifest_dir is Some,
    ensures
        spec_extract(attr, item, env) matches Ok(v) && v.full_path == spec_resolved_path(
            env,
            literal_text(attr[0]),
        ) && v.module_name == spec_unquote(literal_text(attr[2])),
{
}

/// Two literals with no separator between them are rejected as incorrect
/// parameters.
pub proof fn lemma_missing_separator(
    attr: Seq<MacroToken>,
    item: Seq<MacroToken>,
    env: MacroEnvironment,
)
    requires
        attr.len() == 2,
        attr[0] is Literal,
        attr[1] is Literal,
        env.manifest_dir is Some,
    ensures
        spec_extract(attr, item, env) == Err::<UnitTestParametersView, TestsBinErrors>(
            TestsBinErrors::IncorrectParameters,
        ),
{
}

/// Three or more literals, any identifier or group token, or a second
/// separator are rejected as incorrect parameters.
pub proof fn lemma_extra_tokens_rejected(
    attr: Seq<MacroToken>,
    item: Seq<MacroToken>,
    env: MacroEnvironment,
)
    requires
        env.manifest_dir is Some,
        literal_count(attr) >= 3 || separator_count(attr) >= 2 || has_non_parameter_token(attr),
    ensures
        spec_extract(attr, item, env) == Err::<UnitTestParametersView, TestsBinErrors>(
            TestsBinErrors::IncorrectParameters,
        ),
{
    lemma_counts_of_shapes(attr);
}

/// With no literal among the parameter tokens no path is ever resolved, and
/// extraction is rejected as incorrect parameters.
pub proof fn lemma_no_literal_rejected(
    attr: Seq<MacroToken>,
    item: Seq<MacroToken>,
    env: MacroEnvironment,
)
    requires
        literal_count(attr) == 0,
    ensures
        spec_extract(attr, item, env) == Err::<UnitTestParametersView, TestsBinErrors>(
            TestsBinErrors::IncorrectParameters,
        ),
{
    if attr.len() >= 1 && attr[0] is Literal {
        lemma_literal_count_positive(attr, 0);
    }
}

/// A declaration without identifier tokens generates the empty module name.
pub proof fn lemma_generated_name_empty(tokens: Seq<MacroToken>)
    requires
        forall|i: int| 0 <= i < tokens.len() ==> !(tokens[i] is Ident),
    ensures
        spec_generated_name(tokens) == Seq::<char>::empty(),
    decreases tokens.len(),
{
    if tokens.len() > 0 {
        assert forall|i: int| 0 <= i < tokens.drop_last().len() implies !(tokens.drop_last()[i]
            is Ident) by {
            assert(tokens.drop_last()[i] == tokens[i]);
        }
        lemma_generated_name_empty(tokens.drop_last());
        assert(ident_texts(tokens) =~= ident_texts(tokens.drop_last()));
    }
}

/// The base folder is the fixed default when no override is present, the
/// override verbatim when it is present and non-empty, and the fixed default
/// again when the present override is empty.
pub proof fn lemma_base_folder(env: MacroEnvironment)
    ensures
        env.base_folder is None ==> spec_base_folder(env) == spec_default_base_folder(),
        env.base_folder is Some && env.base_folder->0@.len() > 0 ==> spec_base_folder(env)
            == env.base_folder->0@,
        env.base_folder is Some && env.base_folder->0@.len() == 0 ==> spec_base_folder(env)
            == spec_default_base_folder(),
{
}

/// Extraction is deterministic: two results that both satisfy the extraction
/// contract on identical parameter tokens, declaration tokens and environment
/// agree in every observable part.
pub proof fn lemma_extraction_deterministic(
    r1: Result<UnitTestParameters, TestsBinErrors>,
    r2: Result<UnitTestParameters, TestsBinErrors>,
    attr: Seq<MacroToken>,
    item: Seq<MacroToken>,
    env: MacroEnvironment,
)
    requires
        (match r1 {
            Ok(p) => spec_extract(attr, item, env) matches Ok(v) && p@ == v,
            Err(e) => spec_extract(attr, item, env) matches Err(e2) && e == e2,
        }),
        (match r2 {
            Ok(p) => spec_extract(attr, item, env) matches Ok(v) && p@ == v,
            Err(e) => spec_extract(attr, item, env) matches Err(e2) && e == e2,
        }),
    ensures
        (match (r1, r2) {
            (Ok(p1), Ok(p2)) => p1@ == p2@,
            (Err(e1), Err(e2)) => e1 == e2,
            _ => false,
        }),
{
}

} // verus!
