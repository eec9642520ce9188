//! The annotation micro-grammar: the content of one `arbitrary(...)` block
//! is a comma-separated list of entries, each an identifier optionally
//! followed by one parenthesized argument group. Exactly four keys are
//! recognized — `skip` and `default` as bare flags, `gen(<expr>)` and
//! `where(<bound>, <bound>, ...)` with a required group — and exactly one of
//! them must be present for the block to resolve to a [`Configuration`].

use vstd::prelude::*;

use crate::decl::views_of;
use crate::decl::lemma_views_of_prepend;
use crate::errors::ConfigFault;
use crate::scan::COMMA;
use crate::scan::LPAREN;
use crate::scan::is_ident_start;
use crate::scan::sp_bound_comma;
use crate::scan::sp_close;
use crate::scan::sp_ident_end;
use crate::scan::sp_spaces;
use crate::scan::sp_trim;
use crate::scan::bound_comma_from;
use crate::scan::close_from;
use crate::scan::copy_range;
use crate::scan::ident_from;
use crate::scan::ident_start_byte;
use crate::scan::spaces_from;
use crate::scan::trim_copy;

verus! {

/// The bytes of the key `gen`.
pub open spec fn kw_gen() -> Seq<u8> {
    seq![103u8, 101u8, 110u8]
}

/// The bytes of the key `skip`.
pub open spec fn kw_skip() -> Seq<u8> {
    seq![115u8, 107u8, 105u8, 112u8]
}

/// The bytes of the key `default`.
pub open spec fn kw_default() -> Seq<u8> {
    seq![100u8, 101u8, 102u8, 97u8, 117u8, 108u8, 116u8]
}

/// The bytes of the key `where`.
pub open spec fn kw_where() -> Seq<u8> {
    seq![119u8, 104u8, 101u8, 114u8, 101u8]
}

/// The four recognized keys of one annotation block, each at most once.
/// The raw argument text of `gen` and `where` is kept as found.
#[derive(Debug, PartialEq, Eq)]
pub struct AttrArgs {
    /// The argument group of `gen(...)`, when present.
    pub gen: Option<Vec<u8>>,
    /// Whether the flag `skip` is present.
    pub skip: bool,
    /// Whether the flag `default` is present.
    pub default: bool,
    /// The argument group of `where(...)`, when present.
    pub where_args: Option<Vec<u8>>,
}

/// Ghost image of an [`AttrArgs`].
pub ghost struct AttrArgsView {
    pub gen: Option<Seq<u8>>,
    pub skip: bool,
    pub default: bool,
    pub where_args: Option<Seq<u8>>,
}

impl View for AttrArgs {
    type V = AttrArgsView;

    open spec fn view(&self) -> AttrArgsView {
        AttrArgsView {
            gen: match self.gen {
                Some(v) => Some(v@),
                None => None,
            },
            skip: self.skip,
            default: self.default,
            where_args: match self.where_args {
                Some(v) => Some(v@),
                None => None,
            },
        }
    }
}

impl AttrArgs {
    /// An [`AttrArgs`] with no key seen yet.
    pub fn empty() -> (r: AttrArgs)
        ensures
            r@ == AttrArgsView::initial(),
    {
        AttrArgs { gen: None, skip: false, default: false, where_args: None }
    }
}

impl AttrArgsView {
    /// The image of an [`AttrArgs`] with no key seen yet.
    pub open spec fn initial() -> AttrArgsView {
        AttrArgsView { gen: None, skip: false, default: false, where_args: None }
    }

    /// How many of the four keys are present.
    pub open spec fn key_count(self) -> int {
        (if self.gen is Some { 1int } else { 0 }) + (if self.skip { 1int } else { 0 })
            + (if self.default { 1int } else { 0 }) + (if self.where_args is Some {
            1int
        } else {
            0
        })
    }
}

/// The ghost image of one parse result over raw argument structures.
pub open spec fn res_args(r: Result<AttrArgs, ConfigFault>) -> Result<
    AttrArgsView,
    ConfigFault,
> {
    match r {
        Ok(a) => Ok(a@),
        Err(f) => Err(f),
    }
}

/// The ghost image of an optional byte buffer.
pub open spec fn opt_bytes(o: Option<Vec<u8>>) -> Option<Seq<u8>> {
    match o {
        Some(v) => Some(v@),
        None => None,
    }
}

/// One entry's key applied to the keys already collected: rejects an
/// unrecognized key, a repeated key, a flag with an argument group, and
/// `gen` or `where` without one.
pub open spec fn sp_apply(name: Seq<u8>, body: Option<Seq<u8>>, a: AttrArgsView) -> Result<
    AttrArgsView,
    ConfigFault,
> {
    if name == kw_skip() {
        if body is Some {
            Err(ConfigFault::UnexpectedArgs)
        } else if a.skip {
            Err(ConfigFault::RepeatedKey)
        } else {
            Ok(AttrArgsView { skip: true, ..a })
        }
    } else if name == kw_default() {
        if body is Some {
            Err(ConfigFault::UnexpectedArgs)
        } else if a.default {
            Err(ConfigFault::RepeatedKey)
        } else {
            Ok(AttrArgsView { default: true, ..a })
        }
    } else if name == kw_gen() {
        match body {
            None => Err(ConfigFault::MissingArgs),
            Some(b) => if a.gen is Some {
                Err(ConfigFault::RepeatedKey)
            } else {
                Ok(AttrArgsView { gen: Some(b), ..a })
            },
        }
    } else if name == kw_where() {
        match body {
            None => Err(ConfigFault::MissingArgs),
            Some(b) => if a.where_args is Some {
                Err(ConfigFault::RepeatedKey)
            } else {
                Ok(AttrArgsView { where_args: Some(b), ..a })
            },
        }
    } else {
        Err(ConfigFault::UnknownKey)
    }
}

/// The entry list of one block, parsed from position `i` on with the keys
/// in `a` already collected.
pub open spec fn sp_entries(s: Seq<u8>, i: int, a: AttrArgsView) -> Result<
    AttrArgsView,
    ConfigFault,
>
    decreases s.len() - i,
{
    let j = i + sp_spaces(s, i);
    if j >= s.len() {
        Ok(a)
    } else if !is_ident_start(s[j]) {
        Err(ConfigFault::Unbalanced)
    } else {
        let k = j + sp_ident_end(s, j);
        let name = s.subrange(j, k);
        let m = k + sp_spaces(s, k);
        if m < s.len() && s[m] == LPAREN {
            match sp_close(s, m + 1, 1) {
                None => Err(ConfigFault::Unbalanced),
                Some(off) => {
                    let c = m + 1 + off;
                    let body = s.subrange(m + 1, c);
                    let t = c + 1 + sp_spaces(s, c + 1);
                    match sp_apply(name, Some(body), a) {
                        Err(f) => Err(f),
                        Ok(a2) => if t >= s.len() {
                            Ok(a2)
                        } else if s[t] == COMMA {
                            sp_entries(s, t + 1, a2)
                        } else {
                            Err(ConfigFault::Unbalanced)
                        },
                    }
                },
            }
        } else {
            match sp_apply(name, None, a) {
                Err(f) => Err(f),
                Ok(a2) => if m >= s.len() {
                    Ok(a2)
                } else if s[m] == COMMA {
                    sp_entries(s, m + 1, a2)
                } else {
                    Err(ConfigFault::Unbalanced)
                },
            }
        }
    }
}

/// The whole content of one block, parsed into its keys.
pub open spec fn sp_attr_args(s: Seq<u8>) -> Result<AttrArgsView, ConfigFault> {
    sp_entries(s, 0, AttrArgsView::initial())
}

/// Which of the four keys a name is.
enum KeyId {
    KGen,
    KSkip,
    KDefault,
    KWhere,
    KUnknown,
}

/// Classifies the identifier `s[a..b]` against the four recognized keys.
fn match_key(s: &[u8], a: usize, b: usize) -> (k: KeyId)
    requires
        a <= b <= s.len(),
    ensures
        (k is KGen) == (s@.subrange(a as int, b as int) == kw_gen()),
        (k is KSkip) == (s@.subrange(a as int, b as int) == kw_skip()),
        (k is KDefault) == (s@.subrange(a as int, b as int) == kw_default()),
        (k is KWhere) == (s@.subrange(a as int, b as int) == kw_where()),
{
    let ghost sub = s@.subrange(a as int, b as int);
    proof {
        assert(sub.len() == b - a);
        assert forall|j: int| 0 <= j < sub.len() implies sub[j] == s@[a + j] by {}
    }
    let n = b - a;
    if n == 3 && s[a] == 103 && s[a + 1] == 101 && s[a + 2] == 110 {
        proof {
            assert(sub =~= kw_gen());
        }
        KeyId::KGen
    } else if n == 4 && s[a] == 115 && s[a + 1] == 107 && s[a + 2] == 105 && s[a + 3] == 112 {
        proof {
            assert(sub =~= kw_skip());
        }
        KeyId::KSkip
    } else if n == 7 && s[a] == 100 && s[a + 1] == 101 && s[a + 2] == 102 && s[a + 3] == 97 && s[a
        + 4] == 117 && s[a + 5] == 108 && s[a + 6] == 116 {
        proof {
            assert(sub =~= kw_default());
        }
        KeyId::KDefault
    } else if n == 5 && s[a] == 119 && s[a + 1] == 104 && s[a + 2] == 101 && s[a + 3] == 114 && s[a
        + 4] == 101 {
        proof {
            assert(sub =~= kw_where());
        }
        KeyId::KWhere
    } else {
        KeyId::KUnknown
    }
}

/// One entry's key applied to the keys already collected, as executable
/// code.
fn apply_key(s: &[u8], j: usize, k: usize, body: Option<Vec<u8>>, acc: AttrArgs) -> (r: Result<
    AttrArgs,
    ConfigFault,
>)
    requires
        j <= k <= s.len(),
    ensures
        res_args(r) == sp_apply(s@.subrange(j as int, k as int), opt_bytes(body), acc@),
{
    match match_key(s, j, k) {
        KeyId::KSkip => {
            if body.is_some() {
                Err(ConfigFault::UnexpectedArgs)
            } else if acc.skip {
                Err(ConfigFault::RepeatedKey)
            } else {
                Ok(AttrArgs { skip: true, ..acc })
            }
        },
        KeyId::KDefault => {
            if body.is_some() {
                Err(ConfigFault::UnexpectedArgs)
            } else if acc.default {
                Err(ConfigFault::RepeatedKey)
            } else {
                Ok(AttrArgs { default: true, ..acc })
            }
        },
        KeyId::KGen => {
            match body {
                None => Err(ConfigFault::MissingArgs),
                Some(b) => {
                    if acc.gen.is_some() {
                        Err(ConfigFault::RepeatedKey)
                    } else {
                        Ok(AttrArgs { gen: Some(b), ..acc })
                    }
                },
            }
        },
        KeyId::KWhere => {
            match body {
                None => Err(ConfigFault::MissingArgs),
                Some(b) => {
                    if acc.where_args.is_some() {
                        Err(ConfigFault::RepeatedKey)
                    } else {
                        Ok(AttrArgs { where_args: Some(b), ..acc })
                    }
                },
            }
        },
        KeyId::KUnknown => Err(ConfigFault::UnknownKey),
    }
}

/// The entry list of one block from position `i` on, as executable code.
fn parse_entries(s: &[u8], i: usize, acc: AttrArgs) -> (r: Result<AttrArgs, ConfigFault>)
    requires
        i <= s.len(),
    ensures
        res_args(r) == sp_entries(s@, i as int, acc@),
    decreases s.len() - i,
{
    let j = spaces_from(s, i);
    if j >= s.len() {
        Ok(acc)
    } else if !ident_start_byte(s[j]) {
        Err(ConfigFault::Unbalanced)
    } else {
        let k = ident_from(s, j);
        let m = spaces_from(s, k);
        if m < s.len() && s[m] == LPAREN {
            match close_from(s, m + 1, 1) {
                None => Err(ConfigFault::Unbalanced),
                Some(c) => {
                    let body = copy_range(s, m + 1, c);
                    let t = spaces_from(s, c + 1);
                    match apply_key(s, j, k, Some(body), acc) {
                        Err(f) => Err(f),
                        Ok(a2) => {
                            if t >= s.len() {
                                Ok(a2)
                            } else if s[t] == COMMA {
                                parse_entries(s, t + 1, a2)
                            } else {
                                Err(ConfigFault::Unbalanced)
                            }
                        },
                    }
                },
            }
        } else {
            match apply_key(s, j, k, None, acc) {
                Err(f) => Err(f),
                Ok(a2) => {
                    if m >= s.len() {
                        Ok(a2)
                    } else if s[m] == COMMA {
                        parse_entries(s, m + 1, a2)
                    } else {
                        Err(ConfigFault::Unbalanced)
                    }
                },
            }
        }
    }
}

/// The whole content of one block, parsed into its keys, as executable
/// code.
pub fn parse_attr_args(content: &[u8]) -> (r: Result<AttrArgs, ConfigFault>)
    ensures
        res_args(r) == sp_attr_args(content@),
{
    parse_entries(content, 0, AttrArgs::empty())
}

/// One site's resolved configuration: exactly one of the four keys.
#[derive(Debug, PartialEq, Eq)]
pub enum Configuration {
    /// Leave the variant out of the candidate collection.
    Skip,
    /// Take the field's value from the type's default.
    Default,
    /// Produce the field's value by the given generator expression.
    Generator(Vec<u8>),
    /// Use exactly the given bound list as the generated constraint clause.
    WhereBounds(Vec<Vec<u8>>),
}

/// Ghost image of a [`Configuration`].
pub ghost enum ConfigurationView {
    Skip,
    Default,
    Generator(Seq<u8>),
    WhereBounds(Seq<Seq<u8>>),
}

impl View for Configuration {
    type V = ConfigurationView;

    open spec fn view(&self) -> ConfigurationView {
        match self {
            Configuration::Skip => ConfigurationView::Skip,
            Configuration::Default => ConfigurationView::Default,
            Configuration::Generator(e) => ConfigurationView::Generator(e@),
            Configuration::WhereBounds(l) => ConfigurationView::WhereBounds(views_of(l@)),
        }
    }
}

/// The ghost image of one configuration parse result.
pub open spec fn res_cfg(r: Result<Configuration, ConfigFault>) -> Result<
    ConfigurationView,
    ConfigFault,
> {
    match r {
        Ok(c) => Ok(c@),
        Err(f) => Err(f),
    }
}

/// The bound list inside `where(...)`, split on the commas that stand
/// outside every delimiter group, each bound trimmed of spaces. An empty
/// element is rejected unless it only closes the list (a trailing comma).
pub open spec fn sp_bounds_from(s: Seq<u8>, i: int) -> Result<Seq<Seq<u8>>, ConfigFault>
    decreases s.len() - i,
{
    if i >= s.len() {
        Ok(Seq::empty())
    } else {
        let e = i + sp_bound_comma(s, i, 0);
        let seg = sp_trim(s.subrange(i, e));
        if seg.len() == 0 {
            if e >= s.len() {
                Ok(Seq::empty())
            } else {
                Err(ConfigFault::EmptyBound)
            }
        } else if e >= s.len() {
            Ok(seq![seg])
        } else {
            match sp_bounds_from(s, e + 1) {
                Err(f) => Err(f),
                Ok(rest) => Ok(seq![seg] + rest),
            }
        }
    }
}

/// The ghost image of one bound-list split.
pub open spec fn res_bounds(r: Result<Vec<Vec<u8>>, ConfigFault>) -> Result<
    Seq<Seq<u8>>,
    ConfigFault,
> {
    match r {
        Ok(v) => Ok(views_of(v@)),
        Err(f) => Err(f),
    }
}

/// The bound list inside `where(...)` from position `i` on, as executable
/// code.
fn parse_bounds_from(s: &[u8], i: usize) -> (r: Result<Vec<Vec<u8>>, ConfigFault>)
    requires
        i <= s.len(),
    ensures
        res_bounds(r) == sp_bounds_from(s@, i as int),
    decreases s.len() - i,
{
    if i >= s.len() {
        let r: Vec<Vec<u8>> = Vec::new();
        proof {
            assert(views_of(r@) =~= Seq::<Seq<u8>>::empty());
        }
        Ok(r)
    } else {
        let e = bound_comma_from(s, i, 0);
        let seg = trim_copy(s, i, e);
        if seg.len() == 0 {
            if e >= s.len() {
                let r: Vec<Vec<u8>> = Vec::new();
                proof {
                    assert(views_of(r@) =~= Seq::<Seq<u8>>::empty());
                }
                Ok(r)
            } else {
                Err(ConfigFault::EmptyBound)
            }
        } else if e >= s.len() {
            let ghost segv = seg@;
            let mut r: Vec<Vec<u8>> = Vec::new();
            r.push(seg);
            proof {
                assert(views_of(r@) =~= seq![segv]);
            }
            Ok(r)
        } else {
            match parse_bounds_from(s, e + 1) {
                Err(f) => Err(f),
                Ok(mut rest) => {
                    let ghost restv = rest@;
                    let ghost segv = seg@;
                    rest.insert(0, seg);
                    proof {
                        lemma_views_of_prepend(restv, seg);
                        assert(rest@ == restv.insert(0, seg));
                        assert(views_of(rest@) =~= seq![segv] + views_of(restv));
                    }
                    Ok(rest)
                },
            }
        }
    }
}

/// The content of one block resolved to its configuration: parsed into
/// keys, of which exactly one must be present; the argument of `where` is
/// split into its bound list.
pub open spec fn sp_configuration(s: Seq<u8>) -> Result<ConfigurationView, ConfigFault> {
    match sp_attr_args(s) {
        Err(f) => Err(f),
        Ok(a) => {
            if a.key_count() == 0 {
                Err(ConfigFault::NoKey)
            } else if a.key_count() > 1 {
                Err(ConfigFault::MultipleKeys)
            } else if a.skip {
                Ok(ConfigurationView::Skip)
            } else if a.default {
                Ok(ConfigurationView::Default)
            } else {
                match a.gen {
                    Some(b) => Ok(ConfigurationView::Generator(b)),
                    None => match a.where_args {
                        Some(w) => match sp_bounds_from(w, 0) {
                            Err(f) => Err(f),
                            Ok(l) => Ok(ConfigurationView::WhereBounds(l)),
                        },
                        None => Err(ConfigFault::NoKey),
                    },
                }
            }
        },
    }
}

impl Configuration {
    /// Resolves the content of one block, as executable code.
    pub fn parse(content: &[u8]) -> (r: Result<Configuration, ConfigFault>)
        ensures
            res_cfg(r) == sp_configuration(content@),
    {
        let a = match parse_attr_args(content) {
            Err(f) => {
                return Err(f);
            },
            Ok(a) => a,
        };
        let count: u32 = (if a.gen.is_some() {
            1u32
        } else {
            0
        }) + (if a.skip {
            1u32
        } else {
            0
        }) + (if a.default {
            1u32
        } else {
            0
        }) + (if a.where_args.is_some() {
            1u32
        } else {
            0
        });
        if count == 0 {
            Err(ConfigFault::NoKey)
        } else if count > 1 {
            Err(ConfigFault::MultipleKeys)
        } else if a.skip {
            Ok(Configuration::Skip)
        } else if a.default {
            Ok(Configuration::Default)
        } else {
            match a.gen {
                Some(b) => Ok(Configuration::Generator(b)),
                None => {
                    match a.where_args {
                        Some(w) => {
                            match parse_bounds_from(w.as_slice(), 0) {
                                Err(f) => Err(f),
                                Ok(l) => Ok(Configuration::WhereBounds(l)),
                            }
                        },
                        None => Err(ConfigFault::NoKey),
                    }
                },
            }
        }
    }
}

} // verus!
