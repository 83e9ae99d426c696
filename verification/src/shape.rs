//! The shape of a flag's declared type: optional or not, and over which base type.

use crate::error::ConfigError;
use crate::scan::{
    collect_until, first_punct, lemma_first_punct, lemma_first_punct_is, take_back,
};
use crate::token::{Token, TokenView};
use std::collections::VecDeque;
use vstd::prelude::*;

verus! {

/// A declared type, taken apart: `Option<T>` is optional over `T`, any other
/// type `T` is not optional, over itself.
#[derive(Debug, PartialEq, Eq)]
pub struct TypeShape {
    pub has_option: bool,
    pub base_type: Vec<Token>,
}

/// The mathematical value of a [`TypeShape`].
pub struct TypeShapeView {
    pub has_option: bool,
    pub base_type: Seq<TokenView>,
}

impl View for TypeShape {
    type V = TypeShapeView;

    open spec fn view(&self) -> TypeShapeView {
        TypeShapeView { has_option: self.has_option, base_type: self.base_type.deep_view() }
    }
}

/// Does the type name `Option` before its first `<`? Where it has no `<`,
/// anywhere in it.
pub open spec fn names_option(ty: Seq<TokenView>) -> bool {
    exists|i: int| 0 <= i < first_punct(ty, '<') && (#[trigger] ty[i]).is_ident("Option"@)
}

/// The shape of the type `ty`.
///
/// A type that does not name `Option` is its own base type. One that does
/// must end in `>` and hold a `<`; its base type is what stands between the
/// first `<` and that last `>`.
pub open spec fn shape_of(ty: Seq<TokenView>) -> Result<TypeShapeView, ConfigError> {
    if !names_option(ty) {
        Ok(TypeShapeView { has_option: false, base_type: ty })
    } else if !ty.last().is_punct('>') {
        Err(ConfigError::OptionDelimiterMissing)
    } else {
        let inner = ty.drop_last();
        let open = first_punct(inner, '<');
        if open < inner.len() {
            Ok(TypeShapeView { has_option: true, base_type: inner.skip(open + 1) })
        } else {
            Err(ConfigError::OptionDelimiterMissing)
        }
    }
}

/// Does the type name `Option` before its first `<`?
fn scan_for_option(ty: &VecDeque<Token>) -> (r: bool)
    ensures
        r == names_option(ty.deep_view()),
{
    let ghost all = ty.deep_view();
    let mut i: usize = 0;
    while i < ty.len()
        invariant
            i <= ty.len(),
            all == ty.deep_view(),
            forall|j: int| 0 <= j < i ==> !(#[trigger] all[j]).is_punct('<'),
            forall|j: int| 0 <= j < i ==> !(#[trigger] all[j]).is_ident("Option"@),
        decreases ty.len() - i,
    {
        let t = &ty[i];
        assert(t@ == all[i as int]);
        if t.is_punct('<') {
            proof {
                lemma_first_punct_is(all, '<', i as int);
            }
            return false;
        }
        if t.is_ident("Option") {
            proof {
                lemma_first_punct(all, '<');
                if first_punct(all, '<') <= i {
                    assert(!all[first_punct(all, '<')].is_punct('<'));
                }
            }
            return true;
        }
        i += 1;
    }
    proof {
        lemma_first_punct(all, '<');
    }
    false
}

/// Strips the `Option<` and `>` from around an optional type, and says
/// whether the type was optional. A type that is not optional is left as it is.
pub fn filter_out_option(base_type: &mut VecDeque<Token>) -> (r: Result<bool, ConfigError>)
    ensures
        match r {
            Ok(has_option) => shape_of(old(base_type).deep_view()) == Ok::<
                TypeShapeView,
                ConfigError,
            >(
                TypeShapeView {
                    has_option,
                    base_type: final(base_type).deep_view(),
                },
            ),
            Err(e) => shape_of(old(base_type).deep_view()) == Err::<TypeShapeView, ConfigError>(e),
        },
{
    let ghost ty = base_type.deep_view();
    let has_option = scan_for_option(base_type);
    if has_option {
        match take_back(base_type) {
            None => {
                return Err(ConfigError::OptionDelimiterMissing);
            },
            Some(t) => {
                if !t.is_punct('>') {
                    return Err(ConfigError::OptionDelimiterMissing);
                }
            },
        }
        let mut not_used: Vec<Token> = Vec::new();
        match collect_until(&mut not_used, base_type, '<') {
            None => {
                return Err(ConfigError::OptionDelimiterMissing);
            },
            Some(_) => {
                proof {
                    lemma_first_punct(ty.drop_last(), '<');
                }
            },
        }
    }
    Ok(has_option)
}

} // verus!
