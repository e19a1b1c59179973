//! The argument classifier: partitions the configuration entries into the
//! recognized directives (`module`, `prefix`, `impl_into_parent`) and the
//! opaque directives forwarded verbatim to every generated record.
//!
//! A recognized key whose value is a string literal is consumed; one whose
//! value is some other literal kind is consumed and silently dropped, as if
//! the directive were absent.  Every other entry is forwarded, in its
//! original order.  The value of `impl_into_parent` is split on the last
//! occurrence of the path separator `::`; the left side must be a type path
//! and the right side an identifier, else the whole transformation aborts.

use vstd::prelude::*;
use vstd::string::StrSliceExecFns;
use crate::ast::{
    ConfigEntry, ConfigValue, ParentLink, SpecConfigEntry, SpecConfigValue, SpecParentLink,
    TransformError,
};
use crate::paths::{ident_parses, is_ident, is_type_path, path_parses};

verus! {

/// The recognized directives, once classified.
#[derive(Debug, PartialEq, Eq)]
pub struct TransformConfig {
    pub module: Option<String>,
    pub prefix: Option<String>,
    pub parent: Option<ParentLink>,
}

/// Spec-level mirror of [`TransformConfig`].
#[verifier::ext_equal]
pub struct SpecTransformConfig {
    pub module: Option<Seq<char>>,
    pub prefix: Option<Seq<char>>,
    pub parent: Option<SpecParentLink>,
}

impl DeepView for TransformConfig {
    type V = SpecTransformConfig;

    open spec fn deep_view(&self) -> SpecTransformConfig {
        SpecTransformConfig {
            module: self.module.deep_view(),
            prefix: self.prefix.deep_view(),
            parent: self.parent.deep_view(),
        }
    }
}

/// The classifier's result: the recognized directives and the ordered list
/// of opaque directives to forward.
#[derive(Debug, PartialEq, Eq)]
pub struct Classified {
    pub config: TransformConfig,
    pub forwarded: Vec<ConfigEntry>,
}

/// Spec-level mirror of [`Classified`].
#[verifier::ext_equal]
pub struct SpecClassified {
    pub config: SpecTransformConfig,
    pub forwarded: Seq<SpecConfigEntry>,
}

impl DeepView for Classified {
    type V = SpecClassified;

    open spec fn deep_view(&self) -> SpecClassified {
        SpecClassified { config: self.config.deep_view(), forwarded: self.forwarded.deep_view() }
    }
}

/// The state the classifier starts from: nothing recognized, nothing
/// forwarded.
pub open spec fn spec_empty_classified() -> SpecClassified {
    SpecClassified {
        config: SpecTransformConfig { module: None, prefix: None, parent: None },
        forwarded: Seq::empty(),
    }
}

/// The index at which the last occurrence of the path separator `::` starts,
/// if there is one.
pub open spec fn last_separator(s: Seq<char>) -> Option<int>
    decreases s.len(),
{
    if s.len() < 2 {
        None
    } else if s[s.len() - 2] == ':' && s[s.len() - 1] == ':' {
        Some(s.len() - 2)
    } else {
        last_separator(s.drop_last())
    }
}

/// How the value of an `impl_into_parent` directive is read: split on the
/// last `::`, the left side a type path, the right side the parent's
/// alternative name; with no separator the whole value is the type path and
/// no alternative name is recorded.
pub open spec fn spec_parse_parent(v: Seq<char>) -> Result<SpecParentLink, TransformError> {
    match last_separator(v) {
        Some(i) => {
            if !is_type_path(v.take(i)) {
                Err(TransformError::MalformedParentPath)
            } else if !is_ident(v.skip(i + 2)) {
                Err(TransformError::MalformedParentVariant)
            } else {
                Ok(SpecParentLink { path: v.take(i), variant: Some(v.skip(i + 2)) })
            }
        },
        None => {
            if !is_type_path(v) {
                Err(TransformError::MalformedParentPath)
            } else {
                Ok(SpecParentLink { path: v, variant: None })
            }
        },
    }
}

/// What one configuration entry does to the classifier's state.
pub open spec fn spec_classify_step(c: SpecClassified, e: SpecConfigEntry) -> Result<
    SpecClassified,
    TransformError,
> {
    match e {
        SpecConfigEntry::NameValue { key, value } => {
            if key == "module"@ {
                match value {
                    SpecConfigValue::StrLit(s) => {
                        if is_ident(s) {
                            Ok(
                                SpecClassified {
                                    config: SpecTransformConfig {
                                        module: Some(s),
                                        prefix: c.config.prefix,
                                        parent: c.config.parent,
                                    },
                                    forwarded: c.forwarded,
                                },
                            )
                        } else {
                            Err(TransformError::MalformedModuleName)
                        }
                    },
                    SpecConfigValue::OtherLit(_) => Ok(c),
                }
            } else if key == "prefix"@ {
                match value {
                    SpecConfigValue::StrLit(s) => Ok(
                        SpecClassified {
                            config: SpecTransformConfig {
                                module: c.config.module,
                                prefix: Some(s),
                                parent: c.config.parent,
                            },
                            forwarded: c.forwarded,
                        },
                    ),
                    SpecConfigValue::OtherLit(_) => Ok(c),
                }
            } else if key == "impl_into_parent"@ {
                match value {
                    SpecConfigValue::StrLit(s) => {
                        match spec_parse_parent(s) {
                            Ok(p) => Ok(
                                SpecClassified {
                                    config: SpecTransformConfig {
                                        module: c.config.module,
                                        prefix: c.config.prefix,
                                        parent: Some(p),
                                    },
                                    forwarded: c.forwarded,
                                },
                            ),
                            Err(err) => Err(err),
                        }
                    },
                    SpecConfigValue::OtherLit(_) => Ok(c),
                }
            } else {
                Ok(SpecClassified { config: c.config, forwarded: c.forwarded.push(e) })
            }
        },
        SpecConfigEntry::Other(_) => Ok(
            SpecClassified { config: c.config, forwarded: c.forwarded.push(e) },
        ),
    }
}

/// Classification of a sequence of entries, folded in order from the given
/// state; the first malformed directive aborts the whole classification.
pub open spec fn spec_classify_from(c: SpecClassified, entries: Seq<SpecConfigEntry>) -> Result<
    SpecClassified,
    TransformError,
>
    decreases entries.len(),
{
    if entries.len() == 0 {
        Ok(c)
    } else {
        match spec_classify_step(c, entries[0]) {
            Ok(c2) => spec_classify_from(c2, entries.drop_first()),
            Err(e) => Err(e),
        }
    }
}

/// Classification of the whole configuration, from the empty state.
pub open spec fn spec_classify(entries: Seq<SpecConfigEntry>) -> Result<
    SpecClassified,
    TransformError,
> {
    spec_classify_from(spec_empty_classified(), entries)
}

/// True when the string's characters are those of the literal `lit`.
fn str_is(s: &String, lit: &str) -> (r: bool)
    ensures
        r == (s@ == lit@),
{
    let l: String = lit.to_owned();
    *s == l
}

/// A copy of one configuration entry, equal to the original.
pub fn clone_entry(e: &ConfigEntry) -> (r: ConfigEntry)
    ensures
        r == *e,
{
    match e {
        ConfigEntry::NameValue { key, value } => ConfigEntry::NameValue {
            key: key.clone(),
            value: match value {
                ConfigValue::StrLit(s) => ConfigValue::StrLit(s.clone()),
                ConfigValue::OtherLit(s) => ConfigValue::OtherLit(s.clone()),
            },
        },
        ConfigEntry::Other(s) => ConfigEntry::Other(s.clone()),
    }
}

/// Finds where the last `::` of the value starts, if anywhere.
fn rfind_separator(v: &str) -> (r: Option<usize>)
    ensures
        (r matches Some(i) ==> last_separator(v@) == Some(i as int) && i + 2 <= v@.len()),
        (r is None ==> last_separator(v@) is None),
{
    let n = v.unicode_len();
    let mut j: usize = n;
    proof {
        assert(v@.take(n as int) =~= v@);
    }
    loop
        invariant
            n == v@.len(),
            j <= n,
            last_separator(v@) == last_separator(v@.take(j as int)),
        decreases j,
    {
        if j < 2 {
            proof {
                assert(v@.take(j as int).len() < 2);
            }
            return None;
        }
        let a = v.get_char(j - 2);
        let b = v.get_char(j - 1);
        proof {
            assert(v@.take(j as int).len() == j);
            assert(v@.take(j as int)[j - 2] == v@[j - 2]);
            assert(v@.take(j as int)[j - 1] == v@[j - 1]);
            assert(v@.take(j as int).drop_last() =~= v@.take(j - 1));
        }
        if a == ':' && b == ':' {
            return Some(j - 2);
        }
        j = j - 1;
    }
}

/// Reads an `impl_into_parent` value, aborting on a malformed type path or a
/// malformed alternative name after the last separator.
pub fn parse_parent(v: &String) -> (r: Result<ParentLink, TransformError>)
    ensures
        (r matches Ok(p) ==> spec_parse_parent(v@) == Ok::<SpecParentLink, TransformError>(
            p.deep_view(),
        )),
        (r matches Err(e) ==> spec_parse_parent(v@) == Err::<SpecParentLink, TransformError>(e)),
{
    let s = v.as_str();
    match rfind_separator(s) {
        Some(i) => {
            let n = s.unicode_len();
            let path = s.substring_char(0, i);
            let variant = s.substring_char(i + 2, n);
            proof {
                assert(path@ =~= v@.take(i as int));
                assert(variant@ =~= v@.skip(i + 2));
            }
            if !path_parses(path) {
                Err(TransformError::MalformedParentPath)
            } else if !ident_parses(variant) {
                Err(TransformError::MalformedParentVariant)
            } else {
                Ok(ParentLink { path: path.to_owned(), variant: Some(variant.to_owned()) })
            }
        },
        None => {
            if !path_parses(s) {
                Err(TransformError::MalformedParentPath)
            } else {
                Ok(ParentLink { path: v.clone(), variant: None })
            }
        },
    }
}

/// Partitions the configuration entries: recognized directives populate the
/// configuration (a later entry for the same key replaces an earlier one),
/// everything else is forwarded in order.  The first malformed directive
/// aborts the classification; no entry is ever both consumed and forwarded.
pub fn classify(entries: &Vec<ConfigEntry>) -> (r: Result<Classified, TransformError>)
    ensures
        (r matches Ok(c) ==> spec_classify(entries.deep_view()) == Ok::<
            SpecClassified,
            TransformError,
        >(c.deep_view())),
        (r matches Err(e) ==> spec_classify(entries.deep_view()) == Err::<
            SpecClassified,
            TransformError,
        >(e)),
{
    let ghost all = entries.deep_view();
    let mut acc = Classified {
        config: TransformConfig { module: None, prefix: None, parent: None },
        forwarded: Vec::new(),
    };
    let mut i: usize = 0;
    proof {
        assert(all.skip(0) =~= all);
        assert(acc.deep_view().forwarded =~= spec_empty_classified().forwarded);
    }
    while i < entries.len()
        invariant
            i <= entries.len(),
            all == entries.deep_view(),
            all.len() == entries.len(),
            spec_classify(all) == spec_classify_from(acc.deep_view(), all.skip(i as int)),
        decreases entries.len() - i,
    {
        let e = &entries[i];
        let ghost pre = acc.deep_view();
        proof {
            assert(all.skip(i as int).len() > 0);
            assert(all.skip(i as int)[0] == e.deep_view());
            assert(all.skip(i as int).drop_first() =~= all.skip(i + 1));
        }
        match e {
            ConfigEntry::NameValue { key, value } => {
                if str_is(key, "module") {
                    match value {
                        ConfigValue::StrLit(s) => {
                            if ident_parses(s.as_str()) {
                                acc.config.module = Some(s.clone());
                            } else {
                                return Err(TransformError::MalformedModuleName);
                            }
                        },
                        ConfigValue::OtherLit(_) => {},
                    }
                } else if str_is(key, "prefix") {
                    match value {
                        ConfigValue::StrLit(s) => {
                            acc.config.prefix = Some(s.clone());
                        },
                        ConfigValue::OtherLit(_) => {},
                    }
                } else if str_is(key, "impl_into_parent") {
                    match value {
                        ConfigValue::StrLit(s) => {
                            match parse_parent(s) {
                                Ok(p) => {
                                    acc.config.parent = Some(p);
                                },
                                Err(err) => {
                                    return Err(err);
                                },
                            }
                        },
                        ConfigValue::OtherLit(_) => {},
                    }
                } else {
                    acc.forwarded.push(clone_entry(e));
                    proof {
                        assert(acc.forwarded.deep_view() =~= pre.forwarded.push(e.deep_view()));
                    }
                }
            },
            ConfigEntry::Other(_) => {
                acc.forwarded.push(clone_entry(e));
                proof {
                    assert(acc.forwarded.deep_view() =~= pre.forwarded.push(e.deep_view()));
                }
            },
        }
        proof {
            assert(spec_classify_step(pre, e.deep_view()) == Ok::<SpecClassified, TransformError>(
                acc.deep_view(),
            ));
        }
        i = i + 1;
    }
    proof {
        assert(all.skip(i as int) =~= Seq::<SpecConfigEntry>::empty());
    }
    Ok(acc)
}

} // verus!
