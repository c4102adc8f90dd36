//! Rust source text, taken apart into plain pieces.
//!
//! Parsing is the work of the `syn` crate and choosing variant names is the work of `heck`. The
//! functions here hand a text to one of them and give back plain strings. What comes back is a
//! function of the text alone, so each of them has a name in the specifications.
//!
//! Inside a compiler, `proc_macro2` would let the compiler split and print tokens, and the spaces
//! in a printed text would be the compiler's choice. Each call below therefore first has it do that
//! work itself, as it does everywhere else.

use heck::ToPascalCase;
use proc_macro2::fallback;
use quote::ToTokens;
use syn::ext::IdentExt;
use syn::parse::Parser;
use syn::{parse_str, Fields, FnArg, ItemStruct, ItemTrait, Pat, ReturnType, TraitItem};
use vstd::prelude::*;

use crate::text::texts;

verus! {

/// The generic parameters of an item in the four forms in which generated code repeats them.
pub struct GenericsSyntax {
    /// `<...>` as declared, defaults included.
    pub params: String,
    /// `<...>` as it follows `impl`.
    pub impl_generics: String,
    /// `<...>` as it follows the name of the item where the item is used.
    pub ty_generics: String,
    /// `where ...`.
    pub where_clause: String,
}

/// What [`GenericsSyntax`] holds.
pub struct GenericsView {
    pub params: Seq<char>,
    pub impl_generics: Seq<char>,
    pub ty_generics: Seq<char>,
    pub where_clause: Seq<char>,
}

impl View for GenericsSyntax {
    type V = GenericsView;

    open spec fn view(&self) -> GenericsView {
        GenericsView {
            params: self.params@,
            impl_generics: self.impl_generics@,
            ty_generics: self.ty_generics@,
            where_clause: self.where_clause@,
        }
    }
}

/// A trait declaration without its members.
pub struct TraitHead {
    pub name: String,
    pub generics: GenericsSyntax,
}

/// What [`TraitHead`] holds.
pub struct TraitHeadView {
    pub name: Seq<char>,
    pub generics: GenericsView,
}

impl View for TraitHead {
    type V = TraitHeadView;

    open spec fn view(&self) -> TraitHeadView {
        TraitHeadView { name: self.name@, generics: self.generics@ }
    }
}

/// One parameter of a method.
pub enum InputSyntax {
    /// `self` in one of its forms.
    Receiver,
    /// A parameter with a plain name.
    Named { name: String, ty: String },
    /// A parameter with a pattern in place of a plain name.
    Pattern,
}

/// What [`InputSyntax`] holds.
pub enum InputView {
    Receiver,
    Named { name: Seq<char>, ty: Seq<char> },
    Pattern,
}

impl View for InputSyntax {
    type V = InputView;

    open spec fn view(&self) -> InputView {
        match self {
            InputSyntax::Receiver => InputView::Receiver,
            InputSyntax::Named { name, ty } => InputView::Named { name: name@, ty: ty@ },
            InputSyntax::Pattern => InputView::Pattern,
        }
    }
}

/// One member of a trait.
pub enum MemberSyntax {
    /// A function: its name, its parameters, and the type that it returns where one is written.
    Method { name: String, inputs: Vec<InputSyntax>, output: Option<String> },
    /// A constant, a type, a macro call.
    Other,
}

/// What [`MemberSyntax`] holds.
pub enum MemberView {
    Method { name: Seq<char>, inputs: Seq<InputView>, output: Option<Seq<char>> },
    Other,
}

impl View for MemberSyntax {
    type V = MemberView;

    open spec fn view(&self) -> MemberView {
        match self {
            MemberSyntax::Method { name, inputs, output } => MemberView::Method {
                name: name@,
                inputs: input_views(inputs@),
                output: text_option(*output),
            },
            MemberSyntax::Other => MemberView::Other,
        }
    }
}

/// A trait declaration.
pub struct TraitSyntax {
    pub head: TraitHead,
    /// The members of the trait, in order.
    pub members: Vec<MemberSyntax>,
}

/// What [`TraitSyntax`] holds.
pub struct TraitView {
    pub head: TraitHeadView,
    pub members: Seq<MemberView>,
}

impl View for TraitSyntax {
    type V = TraitView;

    open spec fn view(&self) -> TraitView {
        TraitView { head: self.head@, members: member_views(self.members@) }
    }
}

/// One named field of a struct.
pub struct FieldSyntax {
    pub name: String,
    pub ty: String,
    /// The whole field, with its attributes and its visibility.
    pub declaration: String,
}

/// What [`FieldSyntax`] holds.
pub struct FieldView {
    pub name: Seq<char>,
    pub ty: Seq<char>,
    pub declaration: Seq<char>,
}

impl View for FieldSyntax {
    type V = FieldView;

    open spec fn view(&self) -> FieldView {
        FieldView { name: self.name@, ty: self.ty@, declaration: self.declaration@ }
    }
}

/// A struct declaration without its fields.
pub struct StructHead {
    pub attrs: Vec<String>,
    pub vis: String,
    pub name: String,
    pub generics: GenericsSyntax,
}

/// What [`StructHead`] holds.
pub struct StructHeadView {
    pub attrs: Seq<Seq<char>>,
    pub vis: Seq<char>,
    pub name: Seq<char>,
    pub generics: GenericsView,
}

impl View for StructHead {
    type V = StructHeadView;

    open spec fn view(&self) -> StructHeadView {
        StructHeadView {
            attrs: texts(self.attrs@),
            vis: self.vis@,
            name: self.name@,
            generics: self.generics@,
        }
    }
}

/// A struct declaration.
pub struct StructSyntax {
    pub head: StructHead,
    /// The fields, in order, where they have names.
    pub fields: Option<Vec<FieldSyntax>>,
}

/// What [`StructSyntax`] holds.
pub struct StructView {
    pub head: StructHeadView,
    pub fields: Option<Seq<FieldView>>,
}

impl View for StructSyntax {
    type V = StructView;

    open spec fn view(&self) -> StructView {
        StructView { head: self.head@, fields: field_views_option(self.fields) }
    }
}

pub open spec fn input_views(inputs: Seq<InputSyntax>) -> Seq<InputView> {
    inputs.map_values(|i: InputSyntax| i@)
}

pub open spec fn field_views(fields: Seq<FieldSyntax>) -> Seq<FieldView> {
    fields.map_values(|f: FieldSyntax| f@)
}

pub open spec fn member_views(members: Seq<MemberSyntax>) -> Seq<MemberView> {
    members.map_values(|m: MemberSyntax| m@)
}

pub open spec fn field_views_option(fields: Option<Vec<FieldSyntax>>) -> Option<Seq<FieldView>> {
    match fields {
        Some(fields) => Some(field_views(fields@)),
        None => None,
    }
}

pub open spec fn text_option(text: Option<String>) -> Option<Seq<char>> {
    match text {
        Some(text) => Some(text@),
        None => None,
    }
}

/// The view of a parsed value, or of the `compile_error!` that reports why there is none.
pub open spec fn outcome<T: View>(result: Result<T, String>) -> Result<T::V, Seq<char>> {
    match result {
        Ok(value) => Ok(value@),
        Err(report) => Err(report@),
    }
}

/// The views of the two parts of a split text, or of the `compile_error!` in their place.
pub open spec fn pair_outcome(result: Result<(String, String), String>) -> Result<
    (Seq<char>, Seq<char>),
    Seq<char>,
> {
    match result {
        Ok((head, rest)) => Ok((head@, rest@)),
        Err(report) => Err(report@),
    }
}

/// A parsed trait shows its own name, its generic parameters in each of their forms, and all its
/// members in order.
pub proof fn trait_shows_its_parts(decl: TraitSyntax)
    ensures
        decl@.head.name == decl.head.name@,
        decl@.head.generics.params == decl.head.generics.params@,
        decl@.head.generics.impl_generics == decl.head.generics.impl_generics@,
        decl@.head.generics.ty_generics == decl.head.generics.ty_generics@,
        decl@.head.generics.where_clause == decl.head.generics.where_clause@,
        decl@.members.len() == decl.members@.len(),
        forall|i: int| 0 <= i < decl.members@.len() ==> #[trigger] decl@.members[i] == decl.members@[i]@,
{
}

/// A function of a trait shows its name, all its parameters in order, and the type that it returns. A
/// parameter with a plain name shows that name and its type.
pub proof fn function_shows_its_parts(member: MemberSyntax, input: InputSyntax)
    ensures
        match input {
            InputSyntax::Receiver => input@ is Receiver,
            InputSyntax::Named { name, ty } => input@ is Named && input@->name == name@ && input@->ty
                == ty@,
            InputSyntax::Pattern => input@ is Pattern,
        },
        match member {
            MemberSyntax::Method { name, inputs, output } => {
                &&& member@ is Method
                &&& member@->name == name@
                &&& member@->inputs.len() == inputs@.len()
                &&& forall|i: int|
                    0 <= i < inputs@.len() ==> #[trigger] member@->inputs[i] == inputs@[i]@
                &&& member@->output is Some <==> output is Some
                &&& output is Some ==> member@->output->0 == output->0@
            },
            MemberSyntax::Other => member@ is Other,
        },
{
}

/// A parsed struct shows all its attributes in order, its visibility, its name, its generic parameters
/// in each of their forms, and all its fields in order, each with its name, its type and its whole
/// declaration.
pub proof fn struct_shows_its_parts(decl: StructSyntax)
    ensures
        decl@.head.attrs.len() == decl.head.attrs@.len(),
        forall|i: int|
            0 <= i < decl.head.attrs@.len() ==> #[trigger] decl@.head.attrs[i] == decl.head.attrs@[i]@,
        decl@.head.vis == decl.head.vis@,
        decl@.head.name == decl.head.name@,
        decl@.head.generics.params == decl.head.generics.params@,
        decl@.head.generics.impl_generics == decl.head.generics.impl_generics@,
        decl@.head.generics.ty_generics == decl.head.generics.ty_generics@,
        decl@.head.generics.where_clause == decl.head.generics.where_clause@,
        decl@.fields is Some <==> decl.fields is Some,
        decl.fields matches Some(fields) ==> {
            &&& decl@.fields->0.len() == fields@.len()
            &&& forall|i: int|
                0 <= i < fields@.len() ==> {
                    &&& (#[trigger] decl@.fields->0[i]).name == fields@[i].name@
                    &&& decl@.fields->0[i].ty == fields@[i].ty@
                    &&& decl@.fields->0[i].declaration == fields@[i].declaration@
                }
        },
{
}

/// A parse that succeeds shows what it gave, and one that fails shows its report.
pub proof fn outcomes_show_what_came_out<T: View>(
    value: T,
    head: String,
    rest: String,
    report: String,
)
    ensures
        outcome(Ok::<T, String>(value)) == Ok::<T::V, Seq<char>>(value@),
        outcome(Err::<T, String>(report)) == Err::<T::V, Seq<char>>(report@),
        pair_outcome(Ok((head, rest))) == Ok::<_, Seq<char>>((head@, rest@)),
        pair_outcome(Err(report)) == Err::<(Seq<char>, Seq<char>), _>(report@),
{
}

/// What `syn` makes of a text that should be a trait declaration.
pub uninterp spec fn parsed_trait(text: Seq<char>) -> Result<TraitView, Seq<char>>;

/// What `syn` makes of a text that should be a struct declaration.
pub uninterp spec fn parsed_struct(text: Seq<char>) -> Result<StructView, Seq<char>>;

/// What `syn` makes of a text that should be one identifier that is no keyword.
pub uninterp spec fn parsed_ident(text: Seq<char>) -> Result<Seq<char>, Seq<char>>;

/// What `syn` makes of a text that should be one type.
pub uninterp spec fn parsed_type(text: Seq<char>) -> Result<Seq<char>, Seq<char>>;

/// What `syn` makes of a text that should be one expression.
pub uninterp spec fn parsed_expr(text: Seq<char>) -> Result<Seq<char>, Seq<char>>;

/// The expression that `syn` finds at the start of a text, and what follows it.
pub uninterp spec fn leading_expr(text: Seq<char>) -> Result<(Seq<char>, Seq<char>), Seq<char>>;

/// The type that `syn` finds at the start of a text, and what follows it.
pub uninterp spec fn leading_type(text: Seq<char>) -> Result<(Seq<char>, Seq<char>), Seq<char>>;

/// What follows the comma that `syn` finds at the start of a text.
pub uninterp spec fn leading_comma(text: Seq<char>) -> Result<Seq<char>, Seq<char>>;

/// Whether `syn` reads a text as one identifier, keywords included.
pub uninterp spec fn is_identifier(text: Seq<char>) -> bool;

/// `heck`'s form of a text with a capital at the start of each word and nothing between words.
pub uninterp spec fn pascal_case(text: Seq<char>) -> Seq<char>;

/// Calls `syn::parse_str` for a trait, and prints its name and its generic parameters with
/// `to_token_stream`, the latter also in the forms that `Generics::split_for_impl` gives.
///
/// The result is [`parsed_trait`] of the text, without the members. An error is handed over as the
/// tokens that `syn::Error::to_compile_error` makes of it.
#[verifier::external_body]
pub(crate) fn trait_head(text: &str) -> (out: Result<TraitHead, String>)
    ensures
        match out {
            Ok(head) => parsed_trait(text@) matches Ok(decl) && decl.head == head@,
            Err(report) => parsed_trait(text@) == Err::<TraitView, _>(report@),
        },
{
    fallback::force();
    let item: ItemTrait = parse_str(text).map_err(|e| e.to_compile_error().to_string())?;
    let (impl_generics, ty_generics, where_clause) = item.generics.split_for_impl();
    let show = |tokens: &dyn ToTokens| tokens.to_token_stream().to_string();
    let generics = GenericsSyntax {
        params: show(&item.generics),
        impl_generics: show(&impl_generics),
        ty_generics: show(&ty_generics),
        where_clause: show(&where_clause),
    };
    Ok(TraitHead { name: show(&item.ident), generics })
}

/// Calls `syn::parse_str` for a trait, and prints the parts of its members with `to_token_stream`.
///
/// The result is the members of [`parsed_trait`] of the text, and nothing where the text is no trait.
/// Of a parameter with a plain name it has the name and the type.
#[verifier::external_body]
pub(crate) fn trait_members(text: &str) -> (out: Option<Vec<MemberSyntax>>)
    ensures
        match out {
            Some(members) => parsed_trait(text@) matches Ok(decl) && decl.members == member_views(
                members@,
            ),
            None => parsed_trait(text@) is Err,
        },
{
    fallback::force();
    Some(parse_str::<ItemTrait>(text).ok()?.items.into_iter().map(|item| match item {
        TraitItem::Fn(f) => MemberSyntax::Method {
            name: f.sig.ident.to_string(),
            inputs: f.sig.inputs.into_iter().map(|input| match input {
                FnArg::Typed(arg) => match *arg.pat {
                    Pat::Ident(id) => InputSyntax::Named { name: id.ident.to_string(), ty: arg.ty.to_token_stream().to_string() },
                    _ => InputSyntax::Pattern,
                },
                _ => InputSyntax::Receiver,
            }).collect(),
            output: match f.sig.output { ReturnType::Type(_, ty) => Some(ty.to_token_stream().to_string()), _ => None },
        },
        _ => MemberSyntax::Other,
    }).collect())
}

/// Calls `syn::parse_str` for a struct, and prints what stands before its fields, and its generic
/// parameters, as [`trait_head`] does for a trait.
///
/// The result is [`parsed_struct`] of the text, without the fields.
#[verifier::external_body]
pub(crate) fn struct_head(text: &str) -> (out: Result<StructHead, String>)
    ensures
        match out {
            Ok(head) => parsed_struct(text@) matches Ok(decl) && decl.head == head@,
            Err(report) => parsed_struct(text@) == Err::<StructView, _>(report@),
        },
{
    fallback::force();
    let item: ItemStruct = parse_str(text).map_err(|e| e.to_compile_error().to_string())?;
    let (impl_generics, ty_generics, where_clause) = item.generics.split_for_impl();
    let show = |tokens: &dyn ToTokens| tokens.to_token_stream().to_string();
    let generics = GenericsSyntax {
        params: show(&item.generics),
        impl_generics: show(&impl_generics),
        ty_generics: show(&ty_generics),
        where_clause: show(&where_clause),
    };
    let attrs = item.attrs.iter().map(|attr| show(attr)).collect();
    Ok(StructHead { attrs, vis: show(&item.vis), name: show(&item.ident), generics })
}

/// Calls `syn::parse_str` for a struct, and prints the parts of its fields with `to_token_stream`.
///
/// The result is the fields of [`parsed_struct`] of the text, where they have names, and nothing where
/// the text is no struct.
#[verifier::external_body]
pub(crate) fn struct_fields(text: &str) -> (out: Option<Option<Vec<FieldSyntax>>>)
    ensures
        match out {
            Some(fields) => parsed_struct(text@) matches Ok(decl) && decl.fields
                == field_views_option(fields),
            None => parsed_struct(text@) is Err,
        },
{
    fallback::force();
    let show = |tokens: &dyn ToTokens| tokens.to_token_stream().to_string();
    let fields = match parse_str::<ItemStruct>(text).ok()?.fields {
        Fields::Named(fields) => fields.named,
        _ => return Some(None),
    };
    let parts = fields.iter().map(|field| FieldSyntax {
        name: show(&field.ident),
        ty: show(&field.ty),
        declaration: show(field),
    });
    Some(Some(parts.collect()))
}

/// Parses a trait declaration.
pub fn parse_trait(text: &str) -> (out: Result<TraitSyntax, String>)
    ensures
        outcome(out) == parsed_trait(text@),
{
    match trait_head(text) {
        Ok(head) => Ok(TraitSyntax { head, members: trait_members(text).unwrap() }),
        Err(report) => Err(report),
    }
}

/// Parses a struct declaration.
pub fn parse_struct(text: &str) -> (out: Result<StructSyntax, String>)
    ensures
        outcome(out) == parsed_struct(text@),
{
    match struct_head(text) {
        Ok(head) => Ok(StructSyntax { head, fields: struct_fields(text).unwrap() }),
        Err(report) => Err(report),
    }
}

/// Calls `syn::parse_str` for an identifier. The result is [`parsed_ident`] of the text.
#[verifier::external_body]
pub(crate) fn parse_ident(text: &str) -> (out: Result<String, String>)
    ensures
        outcome(out) == parsed_ident(text@),
{
    fallback::force();
    match parse_str::<syn::Ident>(text) {
        Ok(ident) => Ok(ident.to_string()),
        Err(e) => Err(e.to_compile_error().to_string()),
    }
}

/// Calls `syn::parse_str` for a type. The result is [`parsed_type`] of the text.
#[verifier::external_body]
pub(crate) fn parse_type(text: &str) -> (out: Result<String, String>)
    ensures
        outcome(out) == parsed_type(text@),
{
    fallback::force();
    match parse_str::<syn::Type>(text) {
        Ok(ty) => Ok(ty.to_token_stream().to_string()),
        Err(e) => Err(e.to_compile_error().to_string()),
    }
}

/// Calls `syn::parse_str` for an expression. The result is [`parsed_expr`] of the text.
#[verifier::external_body]
pub(crate) fn parse_expr(text: &str) -> (out: Result<String, String>)
    ensures
        outcome(out) == parsed_expr(text@),
{
    fallback::force();
    match parse_str::<syn::Expr>(text) {
        Ok(expr) => Ok(expr.to_token_stream().to_string()),
        Err(e) => Err(e.to_compile_error().to_string()),
    }
}

/// Calls `ParseBuffer::parse` for an expression at the start of a text, and for the tokens after
/// it. The result is [`leading_expr`] of the text.
#[verifier::external_body]
pub(crate) fn split_expr(text: &str) -> (out: Result<(String, String), String>)
    ensures
        pair_outcome(out) == leading_expr(text@),
{
    fallback::force();
    let parser = |input: syn::parse::ParseStream| Ok((input.parse::<syn::Expr>()?, input.parse::<proc_macro2::TokenStream>()?));
    match parser.parse_str(text) {
        Ok((head, rest)) => Ok((head.to_token_stream().to_string(), rest.to_string())),
        Err(e) => Err(e.to_compile_error().to_string()),
    }
}

/// Calls `ParseBuffer::parse` for a type at the start of a text, and for the tokens after it. The
/// result is [`leading_type`] of the text.
#[verifier::external_body]
pub(crate) fn split_type(text: &str) -> (out: Result<(String, String), String>)
    ensures
        pair_outcome(out) == leading_type(text@),
{
    fallback::force();
    let parser = |input: syn::parse::ParseStream| Ok((input.parse::<syn::Type>()?, input.parse::<proc_macro2::TokenStream>()?));
    match parser.parse_str(text) {
        Ok((head, rest)) => Ok((head.to_token_stream().to_string(), rest.to_string())),
        Err(e) => Err(e.to_compile_error().to_string()),
    }
}

/// Calls `ParseBuffer::parse` for a comma at the start of a text, and for the tokens after it. The
/// result is [`leading_comma`] of the text.
#[verifier::external_body]
pub(crate) fn split_comma(text: &str) -> (out: Result<String, String>)
    ensures
        outcome(out) == leading_comma(text@),
{
    fallback::force();
    let parser = |input: syn::parse::ParseStream| Ok((input.parse::<syn::token::Comma>()?, input.parse::<proc_macro2::TokenStream>()?));
    match parser.parse_str(text) {
        Ok((_, rest)) => Ok(rest.to_string()),
        Err(e) => Err(e.to_compile_error().to_string()),
    }
}

/// Calls `syn`'s `Ident::parse_any` on the whole text. The result is [`is_identifier`] of the text.
#[verifier::external_body]
pub(crate) fn check_identifier(text: &str) -> (ok: bool)
    ensures
        ok == is_identifier(text@),
{
    fallback::force();
    syn::Ident::parse_any.parse_str(text).is_ok()
}

/// Calls `heck`'s `to_pascal_case`. The result is [`pascal_case`] of the text.
#[verifier::external_body]
pub(crate) fn to_pascal_case(text: &str) -> (out: String)
    ensures
        out@ == pascal_case(text@),
{
    text.to_pascal_case()
}

} // verus!
