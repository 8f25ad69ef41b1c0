//! The `threaded_actor` attribute as a whole: the impl block is parsed with
//! `syn`, its methods are taken out, and the generated items are appended
//! to the block.

use crate::codegen::{actor_code, actor_code_text, has_part, lemma_generated_code_serves_every_method, patterns_text, types_text, ActorImpl, ActorImplView, ActorMethod, ArgView, MethodArg, MethodView};
use quote::ToTokens;
use syn::FnArg::Typed as TypedParam;
use syn::ImplItem::Fn as FnItem;
use syn::{parse_str, ItemImpl, ReturnType};
use self::ParsedArg::{Receiver, Typed};
use self::ParsedItem::{Method, Other};
use vstd::prelude::*;

verus! {

/// A parameter of a method as parsed: the receiver, or a typed parameter.
pub enum ParsedArg {
    Receiver,
    /// A typed parameter: its pattern, its type, and the whole parameter
    /// as declared (attributes included).
    Typed(String, String, String),
}

/// An item of an impl block as parsed: a method, or anything else (kept
/// as its text).
pub enum ParsedItem {
    /// A method: its name, its parameters and its declared return type.
    Method(String, Vec<ParsedArg>, Option<String>),
    Other(String),
}

/// An impl block as parsed: its self type and its items, in order.
pub struct ParsedImpl {
    pub self_ty: String,
    pub items: Vec<ParsedItem>,
}

pub enum ParsedArgView {
    Receiver,
    Typed(ArgView),
}

pub enum ParsedItemView {
    Method { name: Seq<char>, args: Seq<ParsedArgView>, output: Option<Seq<char>> },
    Other(Seq<char>),
}

pub struct ParsedImplView {
    pub self_ty: Seq<char>,
    pub items: Seq<ParsedItemView>,
}

impl View for ParsedArg {
    type V = ParsedArgView;

    open spec fn view(&self) -> ParsedArgView {
        match self {
            ParsedArg::Receiver => ParsedArgView::Receiver,
            ParsedArg::Typed(p, t, d) => ParsedArgView::Typed(ArgView { pattern: p@, ty: t@, param: d@ }),
        }
    }
}

impl View for ParsedItem {
    type V = ParsedItemView;

    open spec fn view(&self) -> ParsedItemView {
        match self {
            ParsedItem::Method(name, args, output) => ParsedItemView::Method {
                name: name@,
                args: args@.map_values(|a: ParsedArg| a@),
                output: match output {
                    Some(t) => Some(t@),
                    None => None,
                },
            },
            ParsedItem::Other(t) => ParsedItemView::Other(t@),
        }
    }
}

impl View for ParsedImpl {
    type V = ParsedImplView;

    open spec fn view(&self) -> ParsedImplView {
        ParsedImplView { self_ty: self.self_ty@, items: self.items@.map_values(|i: ParsedItem| i@) }
    }
}

/// The view of a parse result: the impl block, or the parser's message.
pub open spec fn parse_result_view(p: Result<ParsedImpl, String>) -> Result<ParsedImplView, Seq<char>> {
    match p {
        Ok(p) => Ok(p@),
        Err(m) => Err(m@),
    }
}

/// Calls `syn::parse_str` for an `ItemImpl` and writes the self type, each
/// method's name, parameters and return type, and each other item as token
/// text (`quote::ToTokens`, then `Display`); a failed parse gives the
/// parser's message. The spacing of that text depends on which token
/// implementation `proc_macro2` uses where the code runs (the compiler's
/// inside a procedural macro, its own elsewhere), so nothing is stated of
/// the result.
#[verifier::external_body]
fn parse_impl(text_in: &str) -> Result<ParsedImpl, String> {
    let text = |t: &dyn ToTokens| t.to_token_stream().to_string();
    let ast: ItemImpl = parse_str(text_in).map_err(|e| e.to_string())?;
    Ok(ParsedImpl { self_ty: text(&ast.self_ty), items: ast.items.iter().map(|item| match item {
        FnItem(f) => Method(f.sig.ident.to_string(), f.sig.inputs.iter().map(|arg| match arg {
            TypedParam(t) => Typed(text(&t.pat), text(&t.ty), text(t)),
            _ => Receiver,
        }).collect(), match &f.sig.output { ReturnType::Type(_, t) => Some(text(t)), _ => None }),
        other => Other(text(other)),
    }).collect() })
}

/// The typed parameters of a method, in order; the receiver is left out.
pub open spec fn typed_args(args: Seq<ParsedArgView>) -> Seq<ArgView>
    decreases args.len(),
{
    if args.len() == 0 {
        Seq::empty()
    } else {
        typed_args(args.drop_last()) + match args.last() {
            ParsedArgView::Receiver => Seq::<ArgView>::empty(),
            ParsedArgView::Typed(a) => seq![a],
        }
    }
}

/// The text of the first item that is not a method, if there is one.
pub open spec fn first_other(items: Seq<ParsedItemView>) -> Option<Seq<char>>
    decreases items.len(),
{
    if items.len() == 0 {
        None
    } else {
        match items[0] {
            ParsedItemView::Other(t) => Some(t),
            ParsedItemView::Method { .. } => first_other(items.drop_first()),
        }
    }
}

/// The method that a method item describes.
pub open spec fn item_method(item: ParsedItemView) -> MethodView {
    match item {
        ParsedItemView::Method { name, args, output } => MethodView { name, args: typed_args(args), output },
        ParsedItemView::Other(_) => MethodView { name: Seq::empty(), args: Seq::empty(), output: None },
    }
}

/// The message with which an item that is not a method is refused.
pub open spec fn not_allowed_text(item: Seq<char>) -> Seq<char> {
    "Not allowed by macro: "@ + item
}

/// The actor that a parsed impl block describes: its methods in order, each
/// with its name, its typed parameters and its return type; or the message
/// for its first item that is not a method.
pub open spec fn actor_impl_spec(p: ParsedImplView) -> Result<ActorImplView, Seq<char>> {
    match first_other(p.items) {
        Some(t) => Err(not_allowed_text(t)),
        None => Ok(
            ActorImplView { self_ty: p.self_ty, methods: p.items.map_values(|i: ParsedItemView| item_method(i)) },
        ),
    }
}

/// Why the attribute could not be expanded.
#[derive(Debug, PartialEq, Eq)]
pub enum ExpandError {
    /// The input is not an impl block; the parser's message.
    NotAnImpl(String),
    /// The impl block holds an item that is not a method; the message names it.
    NotAllowed(String),
}

proof fn lemma_typed_args_take(args: Seq<ParsedArgView>, i: int)
    requires
        0 <= i < args.len(),
    ensures
        typed_args(args.take(i + 1)) == typed_args(args.take(i)) + match args[i] {
            ParsedArgView::Receiver => Seq::<ArgView>::empty(),
            ParsedArgView::Typed(a) => seq![a],
        },
{
    assert(args.take(i + 1).drop_last() =~= args.take(i));
}

proof fn lemma_first_other_at(items: Seq<ParsedItemView>, i: int)
    requires
        0 <= i < items.len(),
        forall|j: int| 0 <= j < i ==> items[j] is Method,
        items[i] is Other,
    ensures
        first_other(items) == Some(items[i]->Other_0),
    decreases i,
{
    if i > 0 {
        let rest = items.drop_first();
        assert forall|j: int| 0 <= j < i - 1 implies rest[j] is Method by {
            assert(rest[j] == items[j + 1]);
        }
        lemma_first_other_at(rest, i - 1);
    }
}

proof fn lemma_first_other_none(items: Seq<ParsedItemView>)
    requires
        forall|j: int| 0 <= j < items.len() ==> items[j] is Method,
    ensures
        first_other(items) is None,
    decreases items.len(),
{
    if items.len() > 0 {
        let rest = items.drop_first();
        assert forall|j: int| 0 <= j < rest.len() implies rest[j] is Method by {
            assert(rest[j] == items[j + 1]);
        }
        lemma_first_other_none(rest);
    }
}

fn copy_text(s: &String) -> (r: String)
    ensures
        r@ == s@,
{
    s.clone()
}

/// The typed parameters, in order, without the receiver.
fn typed_args_of(args: &Vec<ParsedArg>) -> (r: Vec<MethodArg>)
    ensures
        r@.map_values(|a: MethodArg| a@) == typed_args(args@.map_values(|a: ParsedArg| a@)),
{
    let ghost av = args@.map_values(|a: ParsedArg| a@);
    let mut r: Vec<MethodArg> = Vec::new();
    let mut i: usize = 0;
    while i < args.len()
        invariant
            0 <= i <= args.len(),
            av == args@.map_values(|a: ParsedArg| a@),
            r@.map_values(|a: MethodArg| a@) == typed_args(av.take(i as int)),
        decreases args.len() - i,
    {
        proof {
            lemma_typed_args_take(av, i as int);
        }
        match &args[i] {
            ParsedArg::Receiver => {},
            ParsedArg::Typed(p, t, d) => {
                let ghost before = r@;
                let a = MethodArg { pattern: copy_text(p), ty: copy_text(t), param: copy_text(d) };
                r.push(a);
                assert(r@.map_values(|a: MethodArg| a@) =~= before.map_values(|a: MethodArg| a@).push(a@));
            },
        }
        i = i + 1;
    }
    assert(av.take(args.len() as int) =~= av);
    r
}

/// The argument that a parameter becomes: a typed parameter itself; the
/// receiver none.
pub open spec fn typed_param(a: ParsedArgView) -> Option<ArgView> {
    match a {
        ParsedArgView::Typed(x) => Some(x),
        ParsedArgView::Receiver => None,
    }
}

proof fn lemma_typed_args_are_the_typed_params(args: Seq<ParsedArgView>)
    ensures
        typed_args(args) == args.filter_map(|a: ParsedArgView| typed_param(a)),
    decreases args.len(),
{
    if args.len() > 0 {
        lemma_typed_args_are_the_typed_params(args.drop_last());
        let rest = typed_args(args.drop_last());
        match args.last() {
            ParsedArgView::Receiver => {
                assert(rest + Seq::<ArgView>::empty() =~= rest);
            },
            ParsedArgView::Typed(a) => {},
        }
    }
}

/// An impl block whose items are all methods describes an actor with the
/// same self type and one method per item, in the items' order: each with
/// the item's name and return type, and as its parameters exactly the
/// item's typed parameters, in order, with the receiver left out.
pub proof fn lemma_actor_keeps_every_method_and_parameter(p: ParsedImplView)
    requires
        forall|i: int| 0 <= i < p.items.len() ==> p.items[i] is Method,
    ensures
        actor_impl_spec(p) is Ok,
        actor_impl_spec(p)->Ok_0.self_ty == p.self_ty,
        actor_impl_spec(p)->Ok_0.methods.len() == p.items.len(),
        forall|i: int| 0 <= i < p.items.len() ==> (#[trigger] p.items[i] matches ParsedItemView::Method {
            name,
            args,
            output,
        } ==> actor_impl_spec(p)->Ok_0.methods[i] == (MethodView {
            name,
            args: args.filter_map(|a: ParsedArgView| typed_param(a)),
            output,
        })),
{
    lemma_first_other_none(p.items);
    assert forall|i: int| 0 <= i < p.items.len() implies (#[trigger] p.items[i] matches ParsedItemView::Method {
        name,
        args,
        output,
    } ==> actor_impl_spec(p)->Ok_0.methods[i] == (MethodView {
        name,
        args: args.filter_map(|a: ParsedArgView| typed_param(a)),
        output,
    })) by {
        if let ParsedItemView::Method { name, args, output } = p.items[i] {
            lemma_typed_args_are_the_typed_params(args);
        }
    }
}

/// An impl block with an item that is not a method is refused, with the
/// message that names the first such item.
pub proof fn lemma_actor_refuses_first_non_method(p: ParsedImplView, k: int)
    requires
        0 <= k < p.items.len(),
        p.items[k] is Other,
        forall|j: int| 0 <= j < k ==> p.items[j] is Method,
    ensures
        actor_impl_spec(p) == Err::<ActorImplView, Seq<char>>("Not allowed by macro: "@ + p.items[k]->Other_0),
{
    lemma_first_other_at(p.items, k);
}

/// The actor that a parsed impl block describes, or the message for its
/// first item that is not a method.
pub fn actor_impl_of(p: &ParsedImpl) -> (r: Result<ActorImpl, String>)
    ensures
        match r {
            Ok(a) => actor_impl_spec(p@) == Ok::<ActorImplView, Seq<char>>(a@),
            Err(m) => actor_impl_spec(p@) == Err::<ActorImplView, Seq<char>>(m@),
        },
        r is Ok <==> forall|i: int| 0 <= i < p.items.len() ==> #[trigger] p@.items[i] is Method,
        r matches Ok(a) ==> a.methods.len() == p.items.len() && forall|i: int| 0 <= i < p.items.len() ==> (
            #[trigger] p@.items[i] matches ParsedItemView::Method { name, args, output } ==> a@.methods[i] == (
            MethodView { name, args: args.filter_map(|x: ParsedArgView| typed_param(x)), output })),
{
    let ghost iv = p.items@.map_values(|i: ParsedItem| i@);
    let mut methods: Vec<ActorMethod> = Vec::new();
    let mut i: usize = 0;
    while i < p.items.len()
        invariant
            0 <= i <= p.items.len(),
            iv == p.items@.map_values(|i: ParsedItem| i@),
            methods@.len() == i,
            forall|j: int| 0 <= j < i ==> iv[j] is Method,
            forall|j: int| 0 <= j < i ==> #[trigger] methods@[j]@ == item_method(iv[j]),
        decreases p.items.len() - i,
    {
        assert(iv[i as int] == p.items@[i as int]@);
        match &p.items[i] {
            ParsedItem::Other(t) => {
                proof {
                    lemma_first_other_at(iv, i as int);
                    assert(!(p@.items[i as int] is Method));
                }
                let mut m = String::from_str("Not allowed by macro: ");
                m.append(t.as_str());
                return Err(m);
            },
            ParsedItem::Method(name, args, output) => {
                let out = match output {
                    Some(t) => Some(copy_text(t)),
                    None => None,
                };
                let method = ActorMethod { name: copy_text(name), args: typed_args_of(args), output: out };
                methods.push(method);
            },
        }
        i = i + 1;
    }
    proof {
        lemma_first_other_none(iv);
        lemma_actor_keeps_every_method_and_parameter(p@);
    }
    let a = ActorImpl { self_ty: copy_text(&p.self_ty), methods };
    assert(a@.methods =~= iv.map_values(|i: ParsedItemView| item_method(i)));
    Ok(a)
}

/// The view of an expansion error: its kind and its message.
pub enum ExpandErrorView {
    NotAnImpl(Seq<char>),
    NotAllowed(Seq<char>),
}

/// The view of an expansion result.
pub open spec fn expand_result_view(r: Result<String, ExpandError>) -> Result<Seq<char>, ExpandErrorView> {
    match r {
        Ok(s) => Ok(s@),
        Err(ExpandError::NotAnImpl(m)) => Err(ExpandErrorView::NotAnImpl(m@)),
        Err(ExpandError::NotAllowed(m)) => Err(ExpandErrorView::NotAllowed(m@)),
    }
}

/// The output of the attribute on `input`, given what parsing it gave: the
/// input itself followed by the items generated for it; the parser's
/// message when it is no impl block; the refusal of its first item that is
/// not a method.
pub open spec fn expansion(input: Seq<char>, parsed: Result<ParsedImplView, Seq<char>>) -> Result<Seq<char>, ExpandErrorView> {
    match parsed {
        Err(m) => Err(ExpandErrorView::NotAnImpl(m)),
        Ok(p) => match actor_impl_spec(p) {
            Err(m) => Err(ExpandErrorView::NotAllowed(m)),
            Ok(v) => Ok(input + actor_code_text(v)),
        },
    }
}

/// Expanding an impl block whose items are all methods keeps the block and
/// serves every one of its methods: the output starts with the input, and
/// for each method item holds its request variant with the types of all its
/// typed parameters, and the handle's request built from all of them.
#[verifier::rlimit(40)]
pub proof fn lemma_expansion_serves_every_method(input: Seq<char>, p: ParsedImplView, i: int)
    requires
        forall|j: int| 0 <= j < p.items.len() ==> p.items[j] is Method,
        0 <= i < p.items.len(),
    ensures
        expansion(input, Ok(p)) is Ok,
        expansion(input, Ok(p))->Ok_0.take(input.len() as int) == input,
        has_part(
            expansion(input, Ok(p))->Ok_0,
            "    "@ + p.items[i]->name + "("@ + types_text(
                p.items[i]->args.filter_map(|a: ParsedArgView| typed_param(a)),
            ) + "),\n"@,
        ),
        has_part(
            expansion(input, Ok(p))->Ok_0,
            "        let response = self.actor_ref.block("@ + p.self_ty + "Req::"@ + p.items[i]->name + "("@
                + patterns_text(p.items[i]->args.filter_map(|a: ParsedArgView| typed_param(a)))
                + "))?;\n        let data = match response {\n            "@,
        ),
{
    lemma_actor_keeps_every_method_and_parameter(p);
    assert(p.items[i] is Method);
    let v = actor_impl_spec(p)->Ok_0;
    lemma_generated_code_serves_every_method(v, i);
    let code = actor_code_text(v);
    assert((input + code).take(input.len() as int) =~= input);
    let req = "    "@ + v.methods[i].name + "("@ + types_text(v.methods[i].args) + "),\n"@;
    let (pre, post) = choose|pre: Seq<char>, post: Seq<char>| code == pre + req + post;
    assert(input + code =~= (input + pre) + req + post);
    let send = "        let response = self.actor_ref.block("@ + v.self_ty + "Req::"@ + v.methods[i].name + "("@
        + patterns_text(v.methods[i].args) + "))?;\n        let data = match response {\n            "@;
    let (pre2, post2) = choose|pre: Seq<char>, post: Seq<char>| code == pre + send + post;
    assert(input + code =~= (input + pre2) + send + post2);
}

/// Expands the attribute on the impl block `input`, given what parsing it
/// gave.
pub fn expand_parsed(input: &str, parsed: Result<ParsedImpl, String>) -> (r: Result<String, ExpandError>)
    ensures
        expand_result_view(r) == expansion(input@, parse_result_view(parsed)),
{
    match parsed {
        Err(m) => Err(ExpandError::NotAnImpl(m)),
        Ok(p) => match actor_impl_of(&p) {
            Err(m) => Err(ExpandError::NotAllowed(m)),
            Ok(actor) => {
                let code = actor_code(&actor);
                let mut out = String::from_str(input);
                out.append(code.as_str());
                Ok(out)
            },
        },
    }
}

/// Expands the attribute on the impl block `input`: the block itself,
/// followed by the request and response enums, the handler impl and the
/// typed handle generated for its methods. Whatever the parser gives, the
/// result is the expansion of that parse.
pub fn expand(input: &str) -> (r: Result<String, ExpandError>)
    ensures
        exists|parsed: Result<ParsedImplView, Seq<char>>| expand_result_view(r) == #[trigger] expansion(input@, parsed),
{
    let parsed = parse_impl(input);
    let ghost pv = parse_result_view(parsed);
    let r = expand_parsed(input, parsed);
    assert(expand_result_view(r) == expansion(input@, pv));
    r
}

} // verus!
