//! What `#[extend_base_err]` does to an error enum: it refuses anything
//! but an enum and an enum that already has a `Base` variant, appends
//! `Base` (wrapping the shared `BaseErr`) as the last variant, and asks
//! for the `Debug` and `thiserror::Error` derives that are missing.
//! The tokens are read here with `syn`; writing the extended enum back
//! as tokens is left to the caller.

use proc_macro2::TokenStream;
use quote::ToTokens;
use vstd::prelude::*;
use vstd::string::*;

verus! {

#[verifier::external_type_specification]
#[verifier::external_body]
pub struct ExTokenStream(proc_macro2::TokenStream);

#[verifier::external_type_specification]
#[verifier::external_body]
pub struct ExItem(syn::Item);

#[verifier::external_type_specification]
#[verifier::external_body]
pub struct ExItemEnum(syn::ItemEnum);

#[verifier::external_type_specification]
#[verifier::external_body]
pub struct ExSynError(syn::Error);

/// An attribute of the annotated enum, as far as the extension reads it.
pub struct AttrShape {
    /// The attribute's path where it is a single identifier (`derive` in
    /// `#[derive(..)]`), as `syn::Path::get_ident` gives it.
    pub ident: Option<String>,
    /// For a `derive` attribute: the segments of each path that it lists,
    /// or the reader's error.
    pub listed: Option<Result<Vec<Vec<String>>, syn::Error>>,
}

/// The parts of the annotated item that the extension looks at.
pub enum ItemShape {
    /// An enum, with the names of its variants and its attributes.
    Enum { item: syn::ItemEnum, variants: Vec<String>, attributes: Vec<AttrShape> },
    /// Any other item.
    Other(syn::Item),
    /// Tokens that do not read as an item; the reader's error.
    Unreadable(syn::Error),
}

/// The extended enum.
pub struct ExtendedEnum {
    /// The enum as it was read; the caller appends the `Base` variant.
    pub item: syn::ItemEnum,
    /// Whether `#[derive(Debug)]` is added.
    pub derive_debug: bool,
    /// Whether `#[derive(::thiserror::Error)]` is added.
    pub derive_error: bool,
    /// The variant names, `Base` last.
    pub variants: Vec<String>,
    /// The path of the wrapped error type, as tokens written out.
    pub base_path: String,
}

/// Why the extension is refused.
pub enum ExtendError {
    /// The attribute's argument is not a path; the reader's error.
    BadPath(syn::Error),
    /// The tokens do not read as an item; the reader's error, unchanged.
    Unreadable(syn::Error),
    /// The item is not an enum.
    NotAnEnum(syn::Item),
    /// The enum already has a variant named `Base`.
    DuplicateBase(syn::ItemEnum),
    /// A `#[derive(..)]` attribute could not be read; the reader's error.
    MalformedDerive(syn::Error),
}

/// Whether the token stream `t` holds no tokens
/// (`proc_macro2::TokenStream::is_empty`).
pub uninterp spec fn no_tokens(t: TokenStream) -> bool;

/// What `syn::parse2::<syn::Path>` reads from `t`: the path written out as
/// tokens, or the reader's error.
pub uninterp spec fn path_in(t: TokenStream) -> Result<Seq<char>, syn::Error>;

/// What `syn::parse2::<syn::Item>` reads from `t`.
pub uninterp spec fn item_in(t: TokenStream) -> Result<syn::Item, syn::Error>;

/// The enum that `item` is, if it is the `syn::Item::Enum` variant.
pub uninterp spec fn enum_in(item: syn::Item) -> Option<syn::ItemEnum>;

/// The identifiers of the variants of `e`, in order, as text.
pub uninterp spec fn variant_texts(e: syn::ItemEnum) -> Seq<Seq<char>>;

/// How many outer attributes `e` carries.
pub uninterp spec fn attribute_total(e: syn::ItemEnum) -> nat;

/// The path of attribute `i` of `e` as text, where it is a single
/// identifier (`syn::Path::get_ident`).
pub uninterp spec fn attribute_ident_at(e: syn::ItemEnum, i: int) -> Option<Seq<char>>;

/// What `syn::Attribute::parse_nested_meta` reads from attribute `i` of
/// `e`: the segments of each path that it lists, or the reader's error;
/// `None` where `e` has no attribute `i`.
pub uninterp spec fn derive_list_at(e: syn::ItemEnum, i: int) -> Option<
    Result<Seq<Seq<Seq<char>>>, syn::Error>,
>;

/// `proc_macro2::TokenStream::is_empty`; the result is `no_tokens` of the
/// stream.
#[verifier::external_body]
fn tokens_empty(t: &TokenStream) -> (r: bool)
    ensures
        r == no_tokens(*t),
{
    t.is_empty()
}

/// `syn::parse2::<syn::Path>`, the path then written out as tokens; the
/// result is `path_in` of the tokens.
#[verifier::external_body]
fn parse_path(args: TokenStream) -> (r: Result<String, syn::Error>)
    ensures
        path_in(args) == match r {
            Ok(p) => Ok::<Seq<char>, syn::Error>(p@),
            Err(e) => Err::<Seq<char>, syn::Error>(e),
        },
{
    syn::parse2::<syn::Path>(args).map(|p| p.to_token_stream().to_string())
}

/// `syn::parse2::<syn::Item>`; the result is `item_in` of the tokens.
#[verifier::external_body]
fn parse_item(input: TokenStream) -> (r: Result<syn::Item, syn::Error>)
    ensures
        r == item_in(input),
{
    syn::parse2::<syn::Item>(input)
}

/// Tells an enum item (`Ok`) from any other item (`Err`, unchanged), by the
/// variant of `syn::Item`.
#[verifier::external_body]
fn into_enum(item: syn::Item) -> (r: Result<syn::ItemEnum, syn::Item>)
    ensures
        match r {
            Ok(e) => enum_in(item) == Some(e),
            Err(other) => enum_in(item) is None && other == item,
        },
{
    match item {
        syn::Item::Enum(e) => Ok(e),
        other => Err(other),
    }
}

/// The identifiers of the enum's variants (`syn::ItemEnum::variants`), as
/// text; they are `variant_texts` of the enum.
#[verifier::external_body]
fn variant_names(e: &syn::ItemEnum) -> (r: Vec<String>)
    ensures
        texts(r@) == variant_texts(*e),
{
    e.variants.iter().map(|v| v.ident.to_string()).collect()
}

/// `Vec::len` of the enum's attributes (`syn::ItemEnum::attrs`).
#[verifier::external_body]
fn attribute_count(e: &syn::ItemEnum) -> (r: usize)
    ensures
        r == attribute_total(*e),
{
    e.attrs.len()
}

/// `syn::Path::get_ident` of the path of the enum's attribute `i`, as
/// text; it is `attribute_ident_at` of the enum and `i`.
#[verifier::external_body]
fn attribute_ident(e: &syn::ItemEnum, i: usize) -> (r: Option<String>)
    ensures
        opt_text(r) == attribute_ident_at(*e, i as int),
{
    e.attrs.get(i).and_then(|a| a.path().get_ident()).map(|id| id.to_string())
}

/// `syn::Attribute::parse_nested_meta` on the enum's attribute `i`,
/// collecting the segments of each listed path; it is `derive_list_at` of
/// the enum and `i`.
#[verifier::external_body]
fn listed_paths(e: &syn::ItemEnum, i: usize) -> (r: Option<Result<Vec<Vec<String>>, syn::Error>>)
    ensures
        listed_view(r) == derive_list_at(*e, i as int),
{
    e.attrs.get(i).map(|a| {
        let mut paths: Vec<Vec<String>> = Vec::new();
        a.parse_nested_meta(|meta| {
            paths.push(meta.path.segments.iter().map(|s| s.ident.to_string()).collect());
            Ok(())
        }).map(|()| paths)
    })
}

pub open spec fn base_variant() -> Seq<char> {
    "Base"@
}

pub open spec fn debug_trait() -> Seq<char> {
    "Debug"@
}

pub open spec fn error_trait() -> Seq<char> {
    "Error"@
}

pub open spec fn derive_attribute() -> Seq<char> {
    "derive"@
}

/// The path of `BaseErr` used where the attribute names none.
pub open spec fn default_base_path() -> Seq<char> {
    "crate::tuikk_core::errors::BaseErr"@
}

/// The texts of `names`.
pub open spec fn texts(names: Seq<String>) -> Seq<Seq<char>> {
    names.map_values(|s: String| s@)
}

/// The text of an optional string.
pub open spec fn opt_text(s: Option<String>) -> Option<Seq<char>> {
    match s {
        Some(t) => Some(t@),
        None => None,
    }
}

/// The texts of the segments of each path.
pub open spec fn path_texts(paths: Seq<Vec<String>>) -> Seq<Seq<Seq<char>>> {
    paths.map_values(|p: Vec<String>| texts(p@))
}

/// What a `listed` field says, as text.
pub open spec fn listed_view(l: Option<Result<Vec<Vec<String>>, syn::Error>>) -> Option<
    Result<Seq<Seq<Seq<char>>>, syn::Error>,
> {
    match l {
        Some(Ok(paths)) => Some(Ok(path_texts(paths@))),
        Some(Err(e)) => Some(Err(e)),
        None => None,
    }
}

/// An attribute of the annotated enum as the extension sees it.
pub struct AttrView {
    /// The attribute's path, where it is a single identifier.
    pub ident: Option<Seq<char>>,
    /// For a `#[derive(..)]` attribute: the segments of each listed path,
    /// or the reader's error.
    pub listed: Option<Result<Seq<Seq<Seq<char>>>, syn::Error>>,
}

/// The annotated item as the extension sees it.
pub enum ShapeView {
    /// Tokens that do not read as an item; the reader's error.
    Unreadable(syn::Error),
    /// An item that is not an enum.
    Other(syn::Item),
    /// An enum, with the names of its variants and its attributes.
    Enum { item: syn::ItemEnum, variants: Seq<Seq<char>>, attributes: Seq<AttrView> },
}

/// What the extension sees of an attribute that was read.
pub open spec fn attr_view(a: AttrShape) -> AttrView {
    AttrView { ident: opt_text(a.ident), listed: listed_view(a.listed) }
}

/// What the extension sees of an item that was read.
pub open spec fn shape_view(s: ItemShape) -> ShapeView {
    match s {
        ItemShape::Unreadable(e) => ShapeView::Unreadable(e),
        ItemShape::Other(it) => ShapeView::Other(it),
        ItemShape::Enum { item, variants, attributes } => ShapeView::Enum {
            item,
            variants: texts(variants@),
            attributes: attributes@.map_values(|a: AttrShape| attr_view(a)),
        },
    }
}

/// Attribute `i` of `e`: its identifier, and what it lists where it is a
/// `#[derive(..)]` attribute.
pub open spec fn attr_at(e: syn::ItemEnum, i: int) -> AttrView {
    AttrView {
        ident: attribute_ident_at(e, i),
        listed: if attribute_ident_at(e, i) == Some(derive_attribute()) {
            derive_list_at(e, i)
        } else {
            None
        },
    }
}

/// The annotated item read from the tokens `input`.
pub open spec fn shape_of_tokens(input: TokenStream) -> ShapeView {
    match item_in(input) {
        Err(e) => ShapeView::Unreadable(e),
        Ok(it) => match enum_in(it) {
            None => ShapeView::Other(it),
            Some(e) => ShapeView::Enum {
                item: e,
                variants: variant_texts(e),
                attributes: Seq::new(attribute_total(e), |i: int| attr_at(e, i)),
            },
        },
    }
}

/// Whether `a` is a `#[derive(..)]` attribute: its path is the single
/// identifier `derive`.
pub open spec fn is_derive(a: AttrView) -> bool {
    a.ident == Some(derive_attribute())
}

/// Whether `a` is a `#[derive(..)]` attribute that could not be read.
pub open spec fn malformed(a: AttrView) -> bool {
    is_derive(a) && a.listed matches Some(Err(_))
}

/// Whether `i` is the first unreadable `#[derive(..)]` attribute.
pub open spec fn first_malformed(attrs: Seq<AttrView>, i: int) -> bool {
    &&& 0 <= i < attrs.len()
    &&& malformed(attrs[i])
    &&& forall|k: int| 0 <= k < i ==> !malformed(#[trigger] attrs[k])
}

/// The last segments of the non-empty paths in `paths`.
pub open spec fn last_segments(paths: Seq<Seq<Seq<char>>>) -> Seq<Seq<char>>
    decreases paths.len(),
{
    if paths.len() == 0 {
        Seq::empty()
    } else {
        last_segments(paths.drop_last()) + if paths.last().len() > 0 {
            seq![paths.last().last()]
        } else {
            Seq::empty()
        }
    }
}

/// The traits that `a` derives, by the last segment of their paths.
pub open spec fn derived_by(a: AttrView) -> Seq<Seq<char>> {
    if is_derive(a) {
        match a.listed {
            Some(Ok(paths)) => last_segments(paths),
            _ => Seq::empty(),
        }
    } else {
        Seq::empty()
    }
}

/// The traits that `attrs` derive, by the last segment of their paths.
pub open spec fn derived_traits(attrs: Seq<AttrView>) -> Seq<Seq<char>>
    decreases attrs.len(),
{
    if attrs.len() == 0 {
        Seq::empty()
    } else {
        derived_traits(attrs.drop_last()) + derived_by(attrs.last())
    }
}

/// What `#[extend_base_err]` (with the `BaseErr` path `base_path`, if any)
/// gives for the item `shape`.
pub open spec fn extension_outcome(
    base_path: Option<Seq<char>>,
    shape: ShapeView,
    r: Result<ExtendedEnum, ExtendError>,
) -> bool {
    match shape {
        ShapeView::Unreadable(e) => r matches Err(ExtendError::Unreadable(e2)) && e2 == e,
        ShapeView::Other(it) => r matches Err(ExtendError::NotAnEnum(i2)) && i2 == it,
        ShapeView::Enum { item, variants, attributes } => if variants.contains(base_variant()) {
            r matches Err(ExtendError::DuplicateBase(i2)) && i2 == item
        } else if exists|i: int| first_malformed(attributes, i) {
            r matches Err(ExtendError::MalformedDerive(e)) && exists|i: int|
                first_malformed(attributes, i) && attributes[i].listed == Some(
                    Err::<Seq<Seq<Seq<char>>>, syn::Error>(e),
                )
        } else {
            r matches Ok(x) && {
                &&& x.item == item
                &&& x.derive_debug == !derived_traits(attributes).contains(debug_trait())
                &&& x.derive_error == !derived_traits(attributes).contains(error_trait())
                &&& texts(x.variants@) == variants.push(base_variant())
                &&& x.base_path@ == match base_path {
                    Some(p) => p,
                    None => default_base_path(),
                }
            }
        },
    }
}

/// What `#[extend_base_err]` with the argument tokens `args` gives for the
/// item tokens `input`: no argument takes the default path, an argument
/// that is not a path is refused with the reader's error, and the item is
/// then extended as `extension_outcome` says.
pub open spec fn extends_as(
    args: TokenStream,
    input: TokenStream,
    r: Result<ExtendedEnum, ExtendError>,
) -> bool {
    if no_tokens(args) {
        extension_outcome(None, shape_of_tokens(input), r)
    } else {
        match path_in(args) {
            Err(e) => r matches Err(ExtendError::BadPath(e2)) && e2 == e,
            Ok(p) => extension_outcome(Some(p), shape_of_tokens(input), r),
        }
    }
}

proof fn lemma_contains_concat(a: Seq<Seq<char>>, b: Seq<Seq<char>>, n: Seq<char>)
    ensures
        (a + b).contains(n) <==> a.contains(n) || b.contains(n),
{
    if (a + b).contains(n) {
        let k = choose|k: int| 0 <= k < (a + b).len() && (a + b)[k] == n;
        if k < a.len() {
            assert(a[k] == n);
        } else {
            assert(b[k - a.len()] == n);
        }
    }
    if a.contains(n) {
        let k = choose|k: int| 0 <= k < a.len() && a[k] == n;
        assert((a + b)[k] == n);
    }
    if b.contains(n) {
        let k = choose|k: int| 0 <= k < b.len() && b[k] == n;
        assert((a + b)[k + a.len()] == n);
    }
}

fn find_name(names: &Vec<String>, n: &String) -> (r: bool)
    ensures
        r == texts(names@).contains(n@),
{
    let mut i: usize = 0;
    while i < names.len()
        invariant
            i <= names@.len(),
            forall|k: int| 0 <= k < i ==> (#[trigger] names@[k])@ != n@,
        decreases names@.len() - i,
    {
        if names[i] == *n {
            assert(texts(names@)[i as int] == n@);
            return true;
        }
        i = i + 1;
    }
    assert forall|k: int| 0 <= k < texts(names@).len() implies #[trigger] texts(names@)[k] != n@ by {
        assert(texts(names@)[k] == names@[k]@);
    }
    false
}

/// Whether one of `paths` ends in `n`.
fn ends_in(paths: &Vec<Vec<String>>, n: &String) -> (r: bool)
    ensures
        r == last_segments(path_texts(paths@)).contains(n@),
{
    let ghost pv = path_texts(paths@);
    let mut j: usize = 0;
    let mut found = false;
    assert(pv.take(0) =~= Seq::<Seq<Seq<char>>>::empty());
    while j < paths.len()
        invariant
            j <= paths@.len(),
            pv == path_texts(paths@),
            found == last_segments(pv.take(j as int)).contains(n@),
        decreases paths@.len() - j,
    {
        let ghost before = pv.take(j as int);
        let ghost here = pv.take(j + 1);
        assert(here.drop_last() =~= before);
        let p = &paths[j];
        assert(here.last() == texts(p@));
        let ghost tail: Seq<Seq<char>> = if texts(p@).len() > 0 {
            seq![texts(p@).last()]
        } else {
            Seq::empty()
        };
        proof {
            lemma_contains_concat(last_segments(before), tail, n@);
        }
        if p.len() > 0 {
            let last = &p[p.len() - 1];
            assert(texts(p@).last() == last@);
            if *last == *n {
                assert(tail[0] == n@);
                found = true;
            } else {
                assert(!tail.contains(n@));
            }
        } else {
            assert(!tail.contains(n@));
        }
        j = j + 1;
    }
    assert(pv.take(pv.len() as int) =~= pv);
    found
}

/// Whether the attribute `a` derives `n`.
fn derives(a: &AttrShape, derive: &String, n: &String) -> (r: bool)
    requires
        derive@ == derive_attribute(),
    ensures
        r == derived_by(attr_view(*a)).contains(n@),
{
    let is_derive_attr = match &a.ident {
        Some(s) => *s == *derive,
        None => false,
    };
    if !is_derive_attr {
        return false;
    }
    match &a.listed {
        Some(Ok(paths)) => ends_in(paths, n),
        _ => false,
    }
}

/// Applies `#[extend_base_err]` (with the given `BaseErr` path, if any) to
/// the item read as `shape`.
pub fn extend_item(base_path: Option<String>, shape: ItemShape) -> (r: Result<
    ExtendedEnum,
    ExtendError,
>)
    ensures
        extension_outcome(opt_text(base_path), shape_view(shape), r),
{
    match shape {
        ItemShape::Unreadable(e) => Err(ExtendError::Unreadable(e)),
        ItemShape::Other(it) => Err(ExtendError::NotAnEnum(it)),
        ItemShape::Enum { item, variants, attributes } => {
            let base = String::from_str("Base");
            if find_name(&variants, &base) {
                return Err(ExtendError::DuplicateBase(item));
            }
            let derive = String::from_str("derive");
            let debug = String::from_str("Debug");
            let error = String::from_str("Error");
            let mut attributes = attributes;
            let ghost attrs = attributes@.map_values(|a: AttrShape| attr_view(a));
            let mut has_debug = false;
            let mut has_error = false;
            let mut i: usize = 0;
            assert(attrs.take(0) =~= Seq::<AttrView>::empty());
            while i < attributes.len()
                invariant
                    i <= attrs.len(),
                    attrs == attributes@.map_values(|a: AttrShape| attr_view(a)),
                    shape_view(shape) matches ShapeView::Enum { attributes: a0, variants: v0, .. }
                        && a0 == attrs && !v0.contains(base_variant()),
                    derive@ == derive_attribute(),
                    debug@ == debug_trait(),
                    error@ == error_trait(),
                    forall|k: int| 0 <= k < i ==> !malformed(#[trigger] attrs[k]),
                    has_debug == derived_traits(attrs.take(i as int)).contains(debug_trait()),
                    has_error == derived_traits(attrs.take(i as int)).contains(error_trait()),
                decreases attrs.len() - i,
            {
                let a = &attributes[i];
                assert(attrs[i as int] == attr_view(*a));
                let is_derive_attr = match &a.ident {
                    Some(s) => *s == derive,
                    None => false,
                };
                let bad = is_derive_attr && match &a.listed {
                    Some(Err(_)) => true,
                    _ => false,
                };
                if bad {
                    assert(first_malformed(attrs, i as int));
                    let taken = attributes.remove(i);
                    let e = taken.listed.unwrap().unwrap_err();
                    assert(attrs[i as int].listed == Some(Err::<Seq<Seq<Seq<char>>>, syn::Error>(e)));
                    return Err(ExtendError::MalformedDerive(e));
                }
                let ghost before = attrs.take(i as int);
                let ghost here = attrs.take(i + 1);
                assert(here.drop_last() =~= before);
                assert(here.last() == attrs[i as int]);
                let d = derives(a, &derive, &debug);
                let er = derives(a, &derive, &error);
                proof {
                    lemma_contains_concat(derived_traits(before), derived_by(attrs[i as int]), debug_trait());
                    lemma_contains_concat(derived_traits(before), derived_by(attrs[i as int]), error_trait());
                }
                has_debug = has_debug || d;
                has_error = has_error || er;
                i = i + 1;
            }
            assert(attrs.take(attrs.len() as int) =~= attrs);
            assert(!exists|k: int| first_malformed(attrs, k));
            let mut out = variants;
            let ghost before = out@;
            out.push(base);
            assert(texts(out@) =~= texts(before).push(base_variant()));
            let path = match base_path {
                Some(p) => p,
                None => String::from_str("crate::tuikk_core::errors::BaseErr"),
            };
            Ok(ExtendedEnum {
                item,
                derive_debug: !has_debug,
                derive_error: !has_error,
                variants: out,
                base_path: path,
            })
        },
    }
}

/// Reads the annotated item: its kind, and for an enum the names of its
/// variants, its attributes and what each `#[derive(..)]` lists.
pub fn read_item(input: TokenStream) -> (r: ItemShape)
    ensures
        shape_view(r) == shape_of_tokens(input),
{
    let item = match parse_item(input) {
        Ok(item) => item,
        Err(e) => return ItemShape::Unreadable(e),
    };
    let e = match into_enum(item) {
        Ok(e) => e,
        Err(other) => return ItemShape::Other(other),
    };
    let variants = variant_names(&e);
    let n = attribute_count(&e);
    let derive = String::from_str("derive");
    let mut attributes: Vec<AttrShape> = Vec::new();
    let mut i: usize = 0;
    while i < n
        invariant
            i <= n,
            derive@ == derive_attribute(),
            attributes@.len() == i,
            forall|k: int| 0 <= k < i ==> attr_view(#[trigger] attributes@[k]) == attr_at(e, k),
        decreases n - i,
    {
        let ident = attribute_ident(&e, i);
        let is_derive_attr = match &ident {
            Some(s) => *s == derive,
            None => false,
        };
        let listed = if is_derive_attr {
            listed_paths(&e, i)
        } else {
            None
        };
        let ghost old_attrs = attributes@;
        attributes.push(AttrShape { ident, listed });
        assert forall|k: int| 0 <= k < i + 1 implies attr_view(#[trigger] attributes@[k]) == attr_at(e, k) by {
            if k < i {
                assert(attributes@[k] == old_attrs[k]);
            }
        }
        i = i + 1;
    }
    let ghost views = attributes@.map_values(|a: AttrShape| attr_view(a));
    assert(views =~= Seq::new(attribute_total(e), |k: int| attr_at(e, k))) by {
        assert forall|k: int| 0 <= k < views.len() implies views[k] == attr_at(e, k) by {
            assert(views[k] == attr_view(attributes@[k]));
        }
    }
    ItemShape::Enum { item: e, variants, attributes }
}

/// Applies `#[extend_base_err]` with the argument tokens `args` (a path to
/// the shared error type, or nothing for the default) to the item tokens
/// `input`.
pub fn extend_base_err(args: TokenStream, input: TokenStream) -> (r: Result<
    ExtendedEnum,
    ExtendError,
>)
    ensures
        extends_as(args, input, r),
        no_tokens(args) ==> !(r is Err && r->Err_0 is BadPath),
{
    let base_path = if tokens_empty(&args) {
        None
    } else {
        match parse_path(args) {
            Ok(p) => Some(p),
            Err(e) => return Err(ExtendError::BadPath(e)),
        }
    };
    let shape = read_item(input);
    extend_item(base_path, shape)
}

/// `Base` is the last variant of an extended enum and the only one of that
/// name.
pub proof fn law_base_is_last_and_only(before: Seq<Seq<char>>, after: Seq<String>)
    requires
        !before.contains(base_variant()),
        texts(after) == before.push(base_variant()),
    ensures
        after.len() == before.len() + 1,
        forall|k: int| 0 <= k < after.len() ==> ((#[trigger] after[k])@ == base_variant() <==> k
            == after.len() - 1),
{
    assert(texts(after).len() == after.len());
    assert forall|k: int| 0 <= k < after.len() implies ((#[trigger] after[k])@ == base_variant()
        <==> k == after.len() - 1) by {
        assert(texts(after)[k] == after[k]@);
        if k < before.len() && after[k]@ == base_variant() {
            assert(before[k] == base_variant());
        }
    }
}

/// The extension cannot be applied a second time: an enum that carries the
/// variants of an extended enum (so `Base` among them) is refused, whatever
/// the argument.
pub proof fn law_no_second_extension(
    args: TokenStream,
    input: TokenStream,
    r: Result<ExtendedEnum, ExtendError>,
    args2: TokenStream,
    output: TokenStream,
    r2: Result<ExtendedEnum, ExtendError>,
)
    requires
        extends_as(args, input, r),
        r is Ok,
        shape_of_tokens(output) is Enum,
        shape_of_tokens(output)->Enum_variants == texts(r->Ok_0.variants@),
        extends_as(args2, output, r2),
    ensures
        r2 is Err,
        no_tokens(args2) || path_in(args2) is Ok ==> r2->Err_0 is DuplicateBase,
{
    let variants = texts(r->Ok_0.variants@);
    let shape = shape_of_tokens(input);
    let v0 = shape->Enum_variants;
    assert(variants == v0.push(base_variant()));
    assert(variants[v0.len() as int] == base_variant());
    assert(variants.contains(base_variant()));
}

proof fn lemma_some_first_malformed(attrs: Seq<AttrView>, k: int)
    requires
        0 <= k < attrs.len(),
        malformed(attrs[k]),
    ensures
        exists|i: int| first_malformed(attrs, i),
    decreases k,
{
    if exists|j: int| 0 <= j < k && malformed(#[trigger] attrs[j]) {
        let j = choose|j: int| 0 <= j < k && malformed(#[trigger] attrs[j]);
        lemma_some_first_malformed(attrs, j);
    } else {
        assert(first_malformed(attrs, k));
    }
}

/// The extension is accepted exactly when the argument is empty or a path,
/// the item is an enum, the enum has no `Base` variant, and each of its
/// `#[derive(..)]` attributes can be read.
pub proof fn law_accepted_exactly_when(
    args: TokenStream,
    input: TokenStream,
    r: Result<ExtendedEnum, ExtendError>,
)
    requires
        extends_as(args, input, r),
    ensures
        r is Ok <==> {
            &&& no_tokens(args) || path_in(args) is Ok
            &&& shape_of_tokens(input) is Enum
            &&& !shape_of_tokens(input)->Enum_variants.contains(base_variant())
            &&& forall|i: int|
                0 <= i < shape_of_tokens(input)->Enum_attributes.len() ==> !malformed(
                    #[trigger] shape_of_tokens(input)->Enum_attributes[i],
                )
        },
{
    let shape = shape_of_tokens(input);
    if shape is Enum {
        let attrs = shape->Enum_attributes;
        if exists|i: int| 0 <= i < attrs.len() && malformed(#[trigger] attrs[i]) {
            let k = choose|i: int| 0 <= i < attrs.len() && malformed(#[trigger] attrs[i]);
            lemma_some_first_malformed(attrs, k);
        }
    }
}

/// Every `#[derive(..)]` attribute counts: the traits that a run of
/// attributes derives are those of its first part followed by those of the
/// rest.
pub proof fn law_derived_traits_concat(a: Seq<AttrView>, b: Seq<AttrView>)
    ensures
        derived_traits(a + b) == derived_traits(a) + derived_traits(b),
    decreases b.len(),
{
    if b.len() == 0 {
        assert(a + b =~= a);
        assert(derived_traits(a) + derived_traits(b) =~= derived_traits(a));
    } else {
        assert((a + b).drop_last() =~= a + b.drop_last());
        assert((a + b).last() == b.last());
        law_derived_traits_concat(a, b.drop_last());
        assert(derived_traits(a + b) =~= derived_traits(a) + derived_traits(b));
    }
}

/// Only a `#[derive(..)]` attribute that could be read derives traits, and
/// it derives those named by the last segment of a path that it lists.
pub proof fn law_derived_by_attribute(a: AttrView, n: Seq<char>)
    ensures
        derived_by(a).contains(n) <==> is_derive(a) && a.listed is Some && a.listed->0 is Ok
            && exists|k: int|
            0 <= k < a.listed->0->Ok_0.len() && (#[trigger] a.listed->0->Ok_0[k]).len() > 0
                && a.listed->0->Ok_0[k].last() == n,
{
    if is_derive(a) && a.listed is Some && a.listed->0 is Ok {
        law_last_segments_of_paths(a.listed->0->Ok_0, n);
    }
}

/// The enum derives a trait exactly when one of its attributes derives it,
/// whichever attribute that is.
pub proof fn law_derived_by_some_attribute(attrs: Seq<AttrView>, n: Seq<char>)
    ensures
        derived_traits(attrs).contains(n) <==> exists|i: int|
            0 <= i < attrs.len() && (#[trigger] derived_by(attrs[i])).contains(n),
    decreases attrs.len(),
{
    if attrs.len() > 0 {
        let rest = attrs.drop_last();
        law_derived_by_some_attribute(rest, n);
        lemma_contains_concat(derived_traits(rest), derived_by(attrs.last()), n);
        if exists|i: int| 0 <= i < rest.len() && (#[trigger] derived_by(rest[i])).contains(n) {
            let i = choose|i: int| 0 <= i < rest.len() && (#[trigger] derived_by(rest[i])).contains(n);
            assert(attrs[i] == rest[i]);
        }
        if exists|i: int| 0 <= i < attrs.len() && (#[trigger] derived_by(attrs[i])).contains(n) {
            let i = choose|i: int| 0 <= i < attrs.len() && (#[trigger] derived_by(attrs[i])).contains(n);
            if i < rest.len() {
                assert(rest[i] == attrs[i]);
            }
        }
    }
}

/// A derive attribute names a trait exactly when one of the paths it lists
/// ends in that name.
pub proof fn law_last_segments_of_paths(paths: Seq<Seq<Seq<char>>>, n: Seq<char>)
    ensures
        last_segments(paths).contains(n) <==> exists|k: int|
            0 <= k < paths.len() && (#[trigger] paths[k]).len() > 0 && paths[k].last() == n,
    decreases paths.len(),
{
    if paths.len() > 0 {
        let rest = paths.drop_last();
        law_last_segments_of_paths(rest, n);
        let tail: Seq<Seq<char>> = if paths.last().len() > 0 {
            seq![paths.last().last()]
        } else {
            Seq::empty()
        };
        lemma_contains_concat(last_segments(rest), tail, n);
        if paths.last().len() > 0 && paths.last().last() == n {
            assert(tail[0] == n);
        }
        if tail.contains(n) {
            assert(paths[paths.len() - 1] == paths.last());
        }
        if exists|k: int| 0 <= k < rest.len() && (#[trigger] rest[k]).len() > 0 && rest[k].last() == n {
            let k = choose|k: int| 0 <= k < rest.len() && (#[trigger] rest[k]).len() > 0 && rest[k].last() == n;
            assert(paths[k] == rest[k]);
        }
        if exists|k: int| 0 <= k < paths.len() && (#[trigger] paths[k]).len() > 0 && paths[k].last() == n {
            let k = choose|k: int| 0 <= k < paths.len() && (#[trigger] paths[k]).len() > 0 && paths[k].last() == n;
            if k < rest.len() {
                assert(rest[k] == paths[k]);
            } else {
                assert(tail[0] == n);
            }
        }
    }
}

/// An extended enum gets `#[derive(Debug)]` (or `#[derive(thiserror::Error)]`)
/// exactly when none of its attributes derives a trait of that name.
pub proof fn law_derive_added_unless_some_attribute_derives(
    base_path: Option<Seq<char>>,
    shape: ShapeView,
    r: Result<ExtendedEnum, ExtendError>,
)
    requires
        extension_outcome(base_path, shape, r),
        r is Ok,
    ensures
        shape is Enum,
        r->Ok_0.derive_debug <==> !exists|i: int|
            0 <= i < shape->Enum_attributes.len() && (#[trigger] derived_by(
                shape->Enum_attributes[i],
            )).contains(debug_trait()),
        r->Ok_0.derive_error <==> !exists|i: int|
            0 <= i < shape->Enum_attributes.len() && (#[trigger] derived_by(
                shape->Enum_attributes[i],
            )).contains(error_trait()),
{
    let attrs = shape->Enum_attributes;
    law_derived_by_some_attribute(attrs, debug_trait());
    law_derived_by_some_attribute(attrs, error_trait());
}

/// How many of `names` are `n`.
pub open spec fn name_count(names: Seq<Seq<char>>, n: Seq<char>) -> nat
    decreases names.len(),
{
    if names.len() == 0 {
        0
    } else {
        name_count(names.drop_last(), n) + if names.last() == n {
            1nat
        } else {
            0nat
        }
    }
}

proof fn lemma_count_positive(names: Seq<Seq<char>>, n: Seq<char>)
    ensures
        names.contains(n) <==> name_count(names, n) > 0,
    decreases names.len(),
{
    if names.len() > 0 {
        let rest = names.drop_last();
        lemma_count_positive(rest, n);
        if names.contains(n) {
            let k = choose|k: int| 0 <= k < names.len() && names[k] == n;
            if k < rest.len() {
                assert(rest[k] == names[k]);
            }
        }
        if rest.contains(n) {
            let k = choose|k: int| 0 <= k < rest.len() && rest[k] == n;
            assert(names[k] == rest[k]);
        }
        if names.last() == n {
            assert(names[names.len() - 1] == n);
        }
    }
}

/// A trait is derived exactly once after the extension wherever the enum
/// derived it at most once: the derive is added only where it is missing.
pub proof fn law_derived_exactly_once(derived: Seq<Seq<char>>, n: Seq<char>, added: bool)
    requires
        added == !derived.contains(n),
        name_count(derived, n) <= 1,
    ensures
        name_count(derived, n) + (if added {
            1nat
        } else {
            0nat
        }) == 1,
{
    lemma_count_positive(derived, n);
}

impl ExtendError {
    /// The compile error that the refusal reports.
    pub fn message(&self) -> (r: String)
        ensures
            self is NotAnEnum ==> r@ == "#[extend_base_err] can only be applied to enums"@,
            self is DuplicateBase ==> r@
                == "variant `Base` is generated by #[extend_base_err]; rename or remove it"@,
            self matches ExtendError::BadPath(e) ==> exists|t: String|
                #[trigger] to_string_from_display_ensures::<syn::Error>(&e, t) && r@ == t@,
            self matches ExtendError::Unreadable(e) ==> exists|t: String|
                #[trigger] to_string_from_display_ensures::<syn::Error>(&e, t) && r@ == t@,
            self matches ExtendError::MalformedDerive(e) ==> exists|t: String|
                #[trigger] to_string_from_display_ensures::<syn::Error>(&e, t) && r@ == t@,
    {
        match self {
            ExtendError::NotAnEnum(_) => String::from_str(
                "#[extend_base_err] can only be applied to enums",
            ),
            ExtendError::DuplicateBase(_) => String::from_str(
                "variant `Base` is generated by #[extend_base_err]; rename or remove it",
            ),
            ExtendError::BadPath(e) => error_text(e),
            ExtendError::Unreadable(e) => error_text(e),
            ExtendError::MalformedDerive(e) => error_text(e),
        }
    }
}

/// The message of the reader's error `e`.
fn error_text(e: &syn::Error) -> (r: String)
    ensures
        exists|t: String| #[trigger] to_string_from_display_ensures::<syn::Error>(e, t) && r@ == t@,
{
    let t = e.to_string();
    assert(to_string_from_display_ensures::<syn::Error>(e, t));
    t
}

} // verus!
