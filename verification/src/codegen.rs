//! The code that the `threaded_actor` attribute adds beside an actor's
//! `impl` block: request and response enums with one variant per method,
//! the handler that dispatches a request to its method, and a typed handle
//! with one blocking method per method of the actor.
//!
//! The impl block is described by plain values (names and types as source
//! text); the generated items come back as source text.

use vstd::prelude::*;

verus! {

/// One parameter of an actor method, other than its receiver.
pub struct MethodArg {
    /// The parameter's pattern, such as `data1`.
    pub pattern: String,
    /// The parameter's type, such as `usize`.
    pub ty: String,
    /// The whole parameter as declared, attributes included, such as
    /// `data1: usize`.
    pub param: String,
}

/// One method of an actor's impl block.
pub struct ActorMethod {
    pub name: String,
    pub args: Vec<MethodArg>,
    /// The declared return type; `None` when the method returns `()`.
    pub output: Option<String>,
}

/// An actor's impl block: the actor type and its methods, in order.
pub struct ActorImpl {
    pub self_ty: String,
    pub methods: Vec<ActorMethod>,
}

/// A parameter as text: its pattern, its type, and its whole declaration.
pub struct ArgView {
    pub pattern: Seq<char>,
    pub ty: Seq<char>,
    pub param: Seq<char>,
}

/// A method as text: its name, its parameters, its declared return type.
pub struct MethodView {
    pub name: Seq<char>,
    pub args: Seq<ArgView>,
    pub output: Option<Seq<char>>,
}

/// An impl block as text: the actor type and its methods, in order.
pub struct ActorImplView {
    pub self_ty: Seq<char>,
    pub methods: Seq<MethodView>,
}

/// The text of an optional string.
pub open spec fn opt_text(o: Option<String>) -> Option<Seq<char>> {
    match o {
        Some(t) => Some(t@),
        None => None,
    }
}

impl View for MethodArg {
    type V = ArgView;

    open spec fn view(&self) -> ArgView {
        ArgView { pattern: self.pattern@, ty: self.ty@, param: self.param@ }
    }
}

impl View for ActorMethod {
    type V = MethodView;

    open spec fn view(&self) -> MethodView {
        MethodView {
            name: self.name@,
            args: self.args@.map_values(|a: MethodArg| a@),
            output: opt_text(self.output),
        }
    }
}

impl View for ActorImpl {
    type V = ActorImplView;

    open spec fn view(&self) -> ActorImplView {
        ActorImplView { self_ty: self.self_ty@, methods: self.methods@.map_values(|m: ActorMethod| m@) }
    }
}

/// The text that `f` gives for each element of `s`, one after the other.
pub open spec fn concat_each<A>(s: Seq<A>, f: spec_fn(A) -> Seq<char>) -> Seq<char>
    decreases s.len(),
{
    if s.len() == 0 {
        Seq::empty()
    } else {
        concat_each(s.drop_last(), f) + f(s.last())
    }
}

/// The parameter types, each followed by a comma.
pub open spec fn types_text(args: Seq<ArgView>) -> Seq<char> {
    concat_each(args, |a: ArgView| a.ty + ", "@)
}

/// The parameter patterns, each followed by a comma.
pub open spec fn patterns_text(args: Seq<ArgView>) -> Seq<char> {
    concat_each(args, |a: ArgView| a.pattern + ", "@)
}

/// The parameters as declared, each followed by a comma.
pub open spec fn params_text(args: Seq<ArgView>) -> Seq<char> {
    concat_each(args, |a: ArgView| a.param + ", "@)
}

/// The type a method returns.
pub open spec fn output_text(output: Option<Seq<char>>) -> Seq<char> {
    match output {
        Some(t) => t,
        None => "()"@,
    }
}

/// The request variant of a method: its name and its parameter types.
pub open spec fn request_variant_text(m: MethodView) -> Seq<char> {
    "    "@ + m.name + "("@ + types_text(m.args) + "),\n"@
}

/// The response variant of a method: its name and its return type.
pub open spec fn response_variant_text(m: MethodView) -> Seq<char> {
    "    "@ + m.name + "("@ + output_text(m.output) + "),\n"@
}

/// The match arm that serves a method's request by calling the method.
pub open spec fn handler_arm_text(a: Seq<char>, m: MethodView) -> Seq<char> {
    "            "@ + a + "Req::"@ + m.name + "("@ + patterns_text(m.args) + ") => {\n"@
        + "                let temp = self."@ + m.name + "("@ + patterns_text(m.args) + ");\n"@
        + "                "@ + a + "Res::"@ + m.name + "(temp)\n            },\n"@
}

/// The blocking method of the typed handle that sends a method's request.
pub open spec fn block_method_text(a: Seq<char>, m: MethodView) -> Seq<char> {
    "    pub fn "@ + m.name + "(&self, "@ + params_text(m.args) + ") -> Result<"@
        + output_text(m.output) + ", threaded_actor::ActorError> {\n"@
        + "        let response = self.actor_ref.block("@ + a + "Req::"@ + m.name + "("@
        + patterns_text(m.args) + "))?;\n        let data = match response {\n            "@
        + a + "Res::"@ + m.name
        + "(d) => d,\n            _ => unreachable!(),\n        };\n        Ok(data)\n    }\n"@
}

/// The request enum.
pub open spec fn request_enum_text(a: Seq<char>, ms: Seq<MethodView>) -> Seq<char> {
    "pub enum "@ + a + "Req {\n"@ + concat_each(ms, |m: MethodView| request_variant_text(m)) + "}\n"@
}

/// The response enum.
pub open spec fn response_enum_text(a: Seq<char>, ms: Seq<MethodView>) -> Seq<char> {
    "pub enum "@ + a + "Res {\n"@ + concat_each(ms, |m: MethodView| response_variant_text(m)) + "}\n"@
}

/// The impl of the handler trait, dispatching each request to its method.
pub open spec fn handler_impl_text(a: Seq<char>, ms: Seq<MethodView>) -> Seq<char> {
    "impl threaded_actor::ActorHandler<"@ + a + "Req, "@ + a + "Res> for "@ + a
        + " {\n    fn handle(&mut self, request: "@ + a + "Req) -> "@ + a
        + "Res {\n        match request {\n"@ + concat_each(ms, |m: MethodView| handler_arm_text(a, m))
        + "        }\n    }\n}\n"@
}

/// The typed handle: its struct, its conversion from an untyped handle,
/// its `Clone`, and its blocking methods.
pub open spec fn handle_text(a: Seq<char>, ms: Seq<MethodView>) -> Seq<char> {
    "pub struct "@ + a + "Ref {\n    actor_ref: threaded_actor::ActorRef<"@ + a + "Req, "@ + a
        + "Res>\n}\nimpl From<threaded_actor::ActorRef<"@ + a + "Req, "@ + a + "Res>> for "@ + a
        + "Ref {\n    fn from(actor_ref: threaded_actor::ActorRef<"@ + a + "Req, "@ + a
        + "Res>) -> Self {\n        "@ + a + "Ref { actor_ref }\n    }\n}\nimpl Clone for "@ + a
        + "Ref {\n    fn clone(&self) -> Self {\n        Self { actor_ref: self.actor_ref.clone() }\n    }\n}\nimpl "@
        + a + "Ref {\n"@ + concat_each(ms, |m: MethodView| block_method_text(a, m)) + "}\n"@
}

/// Everything generated for an actor's impl block.
pub open spec fn actor_code_text(actor: ActorImplView) -> Seq<char> {
    request_enum_text(actor.self_ty, actor.methods) + response_enum_text(actor.self_ty, actor.methods)
        + handler_impl_text(actor.self_ty, actor.methods) + handle_text(actor.self_ty, actor.methods)
}

/// Taking one more element appends that element's text.
pub proof fn lemma_concat_each_take<A>(s: Seq<A>, f: spec_fn(A) -> Seq<char>, i: int)
    requires
        0 <= i < s.len(),
    ensures
        concat_each(s.take(i + 1), f) == concat_each(s.take(i), f) + f(s[i]),
{
    assert(s.take(i + 1).drop_last() =~= s.take(i));
}

/// The text of a whole sequence is that of its full prefix.
pub proof fn lemma_concat_each_full<A>(s: Seq<A>, f: spec_fn(A) -> Seq<char>)
    ensures
        concat_each(s.take(s.len() as int), f) == concat_each(s, f),
{
    assert(s.take(s.len() as int) =~= s);
}

/// The text for two sequences one after the other is the text for the
/// first followed by the text for the second: each element's text depends
/// on that element alone and keeps its place.
pub proof fn lemma_concat_each_append<A>(s: Seq<A>, t: Seq<A>, f: spec_fn(A) -> Seq<char>)
    ensures
        concat_each(s + t, f) == concat_each(s, f) + concat_each(t, f),
    decreases t.len(),
{
    if t.len() == 0 {
        assert(s + t =~= s);
        assert(concat_each(s, f) + concat_each(t, f) =~= concat_each(s, f));
    } else {
        lemma_concat_each_append(s, t.drop_last(), f);
        assert((s + t).drop_last() =~= s + t.drop_last());
        assert((s + t).last() == t.last());
        assert(concat_each(s, f) + concat_each(t.drop_last(), f) + f(t.last()) =~= concat_each(s, f) + (
        concat_each(t.drop_last(), f) + f(t.last())));
    }
}

/// Whether `part` occurs in `whole` as a contiguous piece.
pub open spec fn has_part(whole: Seq<char>, part: Seq<char>) -> bool {
    exists|pre: Seq<char>, post: Seq<char>| whole == pre + part + post
}

proof fn lemma_part_itself(x: Seq<char>, part: Seq<char>, y: Seq<char>)
    ensures
        has_part(x + part + y, part),
{
    assert((x + part + y) == x + part + y);
}

proof fn lemma_part_within(x: Seq<char>, w: Seq<char>, y: Seq<char>, part: Seq<char>)
    requires
        has_part(w, part),
    ensures
        has_part(x + w + y, part),
{
    let (pre, post) = choose|pre: Seq<char>, post: Seq<char>| w == pre + part + post;
    assert(x + w + y =~= (x + pre) + part + (post + y));
    lemma_part_itself(x + pre, part, post + y);
}

proof fn lemma_part_left(x: Seq<char>, w: Seq<char>, part: Seq<char>)
    requires
        has_part(w, part),
    ensures
        has_part(x + w, part),
{
    lemma_part_within(x, w, Seq::empty(), part);
    assert(x + w + Seq::<char>::empty() =~= x + w);
}

proof fn lemma_part_right(w: Seq<char>, y: Seq<char>, part: Seq<char>)
    requires
        has_part(w, part),
    ensures
        has_part(w + y, part),
{
    lemma_part_within(Seq::empty(), w, y, part);
    assert(Seq::<char>::empty() + w + y =~= w + y);
}

/// The text for a sequence is the text before an element, that element's
/// text, and the text after it.
pub proof fn lemma_concat_each_split<A>(s: Seq<A>, f: spec_fn(A) -> Seq<char>, k: int)
    requires
        0 <= k < s.len(),
    ensures
        concat_each(s, f) == concat_each(s.take(k), f) + f(s[k]) + concat_each(s.skip(k + 1), f),
{
    lemma_concat_each_append(s.take(k + 1), s.skip(k + 1), f);
    assert(s.take(k + 1) + s.skip(k + 1) =~= s);
    lemma_concat_each_take(s, f, k);
}

proof fn lemma_concat_each_part<A>(s: Seq<A>, f: spec_fn(A) -> Seq<char>, k: int, part: Seq<char>)
    requires
        0 <= k < s.len(),
        has_part(f(s[k]), part),
    ensures
        has_part(concat_each(s, f), part),
{
    lemma_concat_each_split(s, f, k);
    lemma_part_within(concat_each(s.take(k), f), f(s[k]), concat_each(s.skip(k + 1), f), part);
}

proof fn lemma_part_of_whole_code(v: ActorImplView, part: Seq<char>, section: int)
    requires
        0 <= section < 4,
        section == 0 ==> has_part(request_enum_text(v.self_ty, v.methods), part),
        section == 1 ==> has_part(response_enum_text(v.self_ty, v.methods), part),
        section == 2 ==> has_part(handler_impl_text(v.self_ty, v.methods), part),
        section == 3 ==> has_part(handle_text(v.self_ty, v.methods), part),
    ensures
        has_part(actor_code_text(v), part),
{
    let r = request_enum_text(v.self_ty, v.methods);
    let q = response_enum_text(v.self_ty, v.methods);
    let h = handler_impl_text(v.self_ty, v.methods);
    let t = handle_text(v.self_ty, v.methods);
    if section == 0 {
        lemma_part_right(r, q, part);
        lemma_part_right(r + q, h, part);
        lemma_part_right(r + q + h, t, part);
    } else if section == 1 {
        lemma_part_left(r, q, part);
        lemma_part_right(r + q, h, part);
        lemma_part_right(r + q + h, t, part);
    } else if section == 2 {
        lemma_part_left(r + q, h, part);
        lemma_part_right(r + q + h, t, part);
    } else {
        lemma_part_left(r + q + h, t, part);
    }
}

/// The generated code serves every method of the actor: it holds the
/// method's request variant with all its parameter types and its response
/// variant with its return type; the handler calls the method with all its
/// parameters; and the typed handle has a method of the same name, taking
/// all the parameters, that sends a request built from all of them.
pub proof fn lemma_generated_code_serves_every_method(v: ActorImplView, k: int)
    requires
        0 <= k < v.methods.len(),
    ensures
        has_part(actor_code_text(v), "    "@ + v.methods[k].name + "("@ + types_text(v.methods[k].args) + "),\n"@),
        has_part(actor_code_text(v), "    "@ + v.methods[k].name + "("@ + output_text(v.methods[k].output) + "),\n"@),
        has_part(
            actor_code_text(v),
            "                let temp = self."@ + v.methods[k].name + "("@ + patterns_text(v.methods[k].args) + ");\n"@,
        ),
        has_part(
            actor_code_text(v),
            "    pub fn "@ + v.methods[k].name + "(&self, "@ + params_text(v.methods[k].args) + ") -> Result<"@
                + output_text(v.methods[k].output) + ", threaded_actor::ActorError> {\n"@,
        ),
        has_part(
            actor_code_text(v),
            "        let response = self.actor_ref.block("@ + v.self_ty + "Req::"@ + v.methods[k].name + "("@
                + patterns_text(v.methods[k].args) + "))?;\n        let data = match response {\n            "@,
        ),
{
    let a = v.self_ty;
    let ms = v.methods;
    let m = ms[k];
    let e = Seq::<char>::empty();

    let req = "    "@ + m.name + "("@ + types_text(m.args) + "),\n"@;
    assert(request_variant_text(m) =~= e + req + e);
    lemma_part_itself(e, req, e);
    lemma_concat_each_part(ms, |x: MethodView| request_variant_text(x), k, req);
    lemma_part_within("pub enum "@ + a + "Req {\n"@, concat_each(ms, |x: MethodView| request_variant_text(x)), "}\n"@, req);
    lemma_part_of_whole_code(v, req, 0);

    let res = "    "@ + m.name + "("@ + output_text(m.output) + "),\n"@;
    assert(response_variant_text(m) =~= e + res + e);
    lemma_part_itself(e, res, e);
    lemma_concat_each_part(ms, |x: MethodView| response_variant_text(x), k, res);
    lemma_part_within("pub enum "@ + a + "Res {\n"@, concat_each(ms, |x: MethodView| response_variant_text(x)), "}\n"@, res);
    lemma_part_of_whole_code(v, res, 1);

    let call = "                let temp = self."@ + m.name + "("@ + patterns_text(m.args) + ");\n"@;
    let arm_head = "            "@ + a + "Req::"@ + m.name + "("@ + patterns_text(m.args) + ") => {\n"@;
    let arm_tail = "                "@ + a + "Res::"@ + m.name + "(temp)\n            },\n"@;
    assert(handler_arm_text(a, m) =~= arm_head + call + arm_tail);
    lemma_part_itself(arm_head, call, arm_tail);
    lemma_concat_each_part(ms, |x: MethodView| handler_arm_text(a, x), k, call);
    let handler_head = "impl threaded_actor::ActorHandler<"@ + a + "Req, "@ + a + "Res> for "@ + a
        + " {\n    fn handle(&mut self, request: "@ + a + "Req) -> "@ + a + "Res {\n        match request {\n"@;
    assert(handler_impl_text(a, ms) =~= handler_head + concat_each(ms, |x: MethodView| handler_arm_text(a, x))
        + "        }\n    }\n}\n"@);
    lemma_part_within(handler_head, concat_each(ms, |x: MethodView| handler_arm_text(a, x)), "        }\n    }\n}\n"@, call);
    lemma_part_of_whole_code(v, call, 2);

    let header = "    pub fn "@ + m.name + "(&self, "@ + params_text(m.args) + ") -> Result<"@ + output_text(m.output)
        + ", threaded_actor::ActorError> {\n"@;
    let send = "        let response = self.actor_ref.block("@ + a + "Req::"@ + m.name + "("@ + patterns_text(m.args)
        + "))?;\n        let data = match response {\n            "@;
    let tail = a + "Res::"@ + m.name + "(d) => d,\n            _ => unreachable!(),\n        };\n        Ok(data)\n    }\n"@;
    assert(block_method_text(a, m) =~= header + send + tail);
    lemma_part_itself(e, header, send + tail);
    assert(e + header + (send + tail) =~= block_method_text(a, m));
    lemma_part_itself(header, send, tail);
    let methods = concat_each(ms, |x: MethodView| block_method_text(a, x));
    let handle_head = "pub struct "@ + a + "Ref {\n    actor_ref: threaded_actor::ActorRef<"@ + a + "Req, "@ + a
        + "Res>\n}\nimpl From<threaded_actor::ActorRef<"@ + a + "Req, "@ + a + "Res>> for "@ + a
        + "Ref {\n    fn from(actor_ref: threaded_actor::ActorRef<"@ + a + "Req, "@ + a
        + "Res>) -> Self {\n        "@ + a + "Ref { actor_ref }\n    }\n}\nimpl Clone for "@ + a
        + "Ref {\n    fn clone(&self) -> Self {\n        Self { actor_ref: self.actor_ref.clone() }\n    }\n}\nimpl "@
        + a + "Ref {\n"@;
    assert(handle_text(a, ms) =~= handle_head + methods + "}\n"@);
    lemma_concat_each_part(ms, |x: MethodView| block_method_text(a, x), k, header);
    lemma_part_within(handle_head, methods, "}\n"@, header);
    lemma_part_of_whole_code(v, header, 3);
    lemma_concat_each_part(ms, |x: MethodView| block_method_text(a, x), k, send);
    lemma_part_within(handle_head, methods, "}\n"@, send);
    lemma_part_of_whole_code(v, send, 3);
}

fn types_code(args: &Vec<MethodArg>) -> (s: String)
    ensures
        s@ == types_text(args@.map_values(|a: MethodArg| a@)),
{
    let ghost f = |a: ArgView| a.ty + ", "@;
    let ghost av = args@.map_values(|a: MethodArg| a@);
    let mut s = String::new();
    let mut i: usize = 0;
    while i < args.len()
        invariant
            0 <= i <= args.len(),
            f == (|a: ArgView| a.ty + ", "@),
            av == args@.map_values(|a: MethodArg| a@),
            s@ == concat_each(av.take(i as int), f),
        decreases args.len() - i,
    {
        let mut piece = args[i].ty.clone();
        piece.append(", ");
        proof {
            assert(av[i as int] == args@[i as int]@);
            lemma_concat_each_take(av, f, i as int);
        }
        s.append(piece.as_str());
        i = i + 1;
    }
    proof {
        lemma_concat_each_full(av, f);
    }
    s
}

fn patterns_code(args: &Vec<MethodArg>) -> (s: String)
    ensures
        s@ == patterns_text(args@.map_values(|a: MethodArg| a@)),
{
    let ghost f = |a: ArgView| a.pattern + ", "@;
    let ghost av = args@.map_values(|a: MethodArg| a@);
    let mut s = String::new();
    let mut i: usize = 0;
    while i < args.len()
        invariant
            0 <= i <= args.len(),
            f == (|a: ArgView| a.pattern + ", "@),
            av == args@.map_values(|a: MethodArg| a@),
            s@ == concat_each(av.take(i as int), f),
        decreases args.len() - i,
    {
        let mut piece = args[i].pattern.clone();
        piece.append(", ");
        proof {
            assert(av[i as int] == args@[i as int]@);
            lemma_concat_each_take(av, f, i as int);
        }
        s.append(piece.as_str());
        i = i + 1;
    }
    proof {
        lemma_concat_each_full(av, f);
    }
    s
}

fn params_code(args: &Vec<MethodArg>) -> (s: String)
    ensures
        s@ == params_text(args@.map_values(|a: MethodArg| a@)),
{
    let ghost f = |a: ArgView| a.param + ", "@;
    let ghost av = args@.map_values(|a: MethodArg| a@);
    let mut s = String::new();
    let mut i: usize = 0;
    while i < args.len()
        invariant
            0 <= i <= args.len(),
            f == (|a: ArgView| a.param + ", "@),
            av == args@.map_values(|a: MethodArg| a@),
            s@ == concat_each(av.take(i as int), f),
        decreases args.len() - i,
    {
        let mut piece = args[i].param.clone();
        piece.append(", ");
        proof {
            assert(av[i as int] == args@[i as int]@);
            lemma_concat_each_take(av, f, i as int);
        }
        s.append(piece.as_str());
        i = i + 1;
    }
    proof {
        lemma_concat_each_full(av, f);
    }
    s
}

fn output_code(output: &Option<String>) -> (s: String)
    ensures
        s@ == output_text(opt_text(*output)),
{
    match output {
        Some(t) => t.clone(),
        None => String::from_str("()"),
    }
}

fn request_variant_code(m: &ActorMethod) -> (s: String)
    ensures
        s@ == request_variant_text(m@),
{
    let mut s = String::from_str("    ");
    s.append(m.name.as_str());
    s.append("(");
    let types = types_code(&m.args);
    s.append(types.as_str());
    s.append("),\n");
    s
}

fn response_variant_code(m: &ActorMethod) -> (s: String)
    ensures
        s@ == response_variant_text(m@),
{
    let mut s = String::from_str("    ");
    s.append(m.name.as_str());
    s.append("(");
    let output = output_code(&m.output);
    s.append(output.as_str());
    s.append("),\n");
    s
}

fn handler_arm_code(a: &String, m: &ActorMethod) -> (s: String)
    ensures
        s@ == handler_arm_text(a@, m@),
{
    let pats = patterns_code(&m.args);
    let mut s = String::from_str("            ");
    s.append(a.as_str());
    s.append("Req::");
    s.append(m.name.as_str());
    s.append("(");
    s.append(pats.as_str());
    s.append(") => {\n");
    s.append("                let temp = self.");
    s.append(m.name.as_str());
    s.append("(");
    s.append(pats.as_str());
    s.append(");\n");
    s.append("                ");
    s.append(a.as_str());
    s.append("Res::");
    s.append(m.name.as_str());
    s.append("(temp)\n            },\n");
    s
}

fn block_method_code(a: &String, m: &ActorMethod) -> (s: String)
    ensures
        s@ == block_method_text(a@, m@),
{
    let pats = patterns_code(&m.args);
    let params = params_code(&m.args);
    let output = output_code(&m.output);
    let mut s = String::from_str("    pub fn ");
    s.append(m.name.as_str());
    s.append("(&self, ");
    s.append(params.as_str());
    s.append(") -> Result<");
    s.append(output.as_str());
    s.append(", threaded_actor::ActorError> {\n");
    s.append("        let response = self.actor_ref.block(");
    s.append(a.as_str());
    s.append("Req::");
    s.append(m.name.as_str());
    s.append("(");
    s.append(pats.as_str());
    s.append("))?;\n        let data = match response {\n            ");
    s.append(a.as_str());
    s.append("Res::");
    s.append(m.name.as_str());
    s.append("(d) => d,\n            _ => unreachable!(),\n        };\n        Ok(data)\n    }\n");
    s
}

fn request_variants_code(ms: &Vec<ActorMethod>) -> (s: String)
    ensures
        s@ == concat_each(ms@.map_values(|m: ActorMethod| m@), |m: MethodView| request_variant_text(m)),
{
    let ghost f = |m: MethodView| request_variant_text(m);
    let ghost mv = ms@.map_values(|m: ActorMethod| m@);
    let mut s = String::new();
    let mut i: usize = 0;
    while i < ms.len()
        invariant
            0 <= i <= ms.len(),
            f == (|m: MethodView| request_variant_text(m)),
            mv == ms@.map_values(|m: ActorMethod| m@),
            s@ == concat_each(mv.take(i as int), f),
        decreases ms.len() - i,
    {
        let piece = request_variant_code(&ms[i]);
        proof {
            assert(mv[i as int] == ms@[i as int]@);
            lemma_concat_each_take(mv, f, i as int);
        }
        s.append(piece.as_str());
        i = i + 1;
    }
    proof {
        lemma_concat_each_full(mv, f);
    }
    s
}

fn response_variants_code(ms: &Vec<ActorMethod>) -> (s: String)
    ensures
        s@ == concat_each(ms@.map_values(|m: ActorMethod| m@), |m: MethodView| response_variant_text(m)),
{
    let ghost f = |m: MethodView| response_variant_text(m);
    let ghost mv = ms@.map_values(|m: ActorMethod| m@);
    let mut s = String::new();
    let mut i: usize = 0;
    while i < ms.len()
        invariant
            0 <= i <= ms.len(),
            f == (|m: MethodView| response_variant_text(m)),
            mv == ms@.map_values(|m: ActorMethod| m@),
            s@ == concat_each(mv.take(i as int), f),
        decreases ms.len() - i,
    {
        let piece = response_variant_code(&ms[i]);
        proof {
            assert(mv[i as int] == ms@[i as int]@);
            lemma_concat_each_take(mv, f, i as int);
        }
        s.append(piece.as_str());
        i = i + 1;
    }
    proof {
        lemma_concat_each_full(mv, f);
    }
    s
}

fn handler_arms_code(a: &String, ms: &Vec<ActorMethod>) -> (s: String)
    ensures
        s@ == concat_each(ms@.map_values(|m: ActorMethod| m@), |m: MethodView| handler_arm_text(a@, m)),
{
    let ghost f = |m: MethodView| handler_arm_text(a@, m);
    let ghost mv = ms@.map_values(|m: ActorMethod| m@);
    let mut s = String::new();
    let mut i: usize = 0;
    while i < ms.len()
        invariant
            0 <= i <= ms.len(),
            f == (|m: MethodView| handler_arm_text(a@, m)),
            mv == ms@.map_values(|m: ActorMethod| m@),
            s@ == concat_each(mv.take(i as int), f),
        decreases ms.len() - i,
    {
        let piece = handler_arm_code(a, &ms[i]);
        proof {
            assert(mv[i as int] == ms@[i as int]@);
            lemma_concat_each_take(mv, f, i as int);
        }
        s.append(piece.as_str());
        i = i + 1;
    }
    proof {
        lemma_concat_each_full(mv, f);
    }
    s
}

fn block_methods_code(a: &String, ms: &Vec<ActorMethod>) -> (s: String)
    ensures
        s@ == concat_each(ms@.map_values(|m: ActorMethod| m@), |m: MethodView| block_method_text(a@, m)),
{
    let ghost f = |m: MethodView| block_method_text(a@, m);
    let ghost mv = ms@.map_values(|m: ActorMethod| m@);
    let mut s = String::new();
    let mut i: usize = 0;
    while i < ms.len()
        invariant
            0 <= i <= ms.len(),
            f == (|m: MethodView| block_method_text(a@, m)),
            mv == ms@.map_values(|m: ActorMethod| m@),
            s@ == concat_each(mv.take(i as int), f),
        decreases ms.len() - i,
    {
        let piece = block_method_code(a, &ms[i]);
        proof {
            assert(mv[i as int] == ms@[i as int]@);
            lemma_concat_each_take(mv, f, i as int);
        }
        s.append(piece.as_str());
        i = i + 1;
    }
    proof {
        lemma_concat_each_full(mv, f);
    }
    s
}

fn request_enum_code(a: &String, ms: &Vec<ActorMethod>) -> (s: String)
    ensures
        s@ == request_enum_text(a@, ms@.map_values(|m: ActorMethod| m@)),
{
    let variants = request_variants_code(ms);
    let mut s = String::from_str("pub enum ");
    s.append(a.as_str());
    s.append("Req {\n");
    s.append(variants.as_str());
    s.append("}\n");
    s
}

fn response_enum_code(a: &String, ms: &Vec<ActorMethod>) -> (s: String)
    ensures
        s@ == response_enum_text(a@, ms@.map_values(|m: ActorMethod| m@)),
{
    let variants = response_variants_code(ms);
    let mut s = String::from_str("pub enum ");
    s.append(a.as_str());
    s.append("Res {\n");
    s.append(variants.as_str());
    s.append("}\n");
    s
}

fn handler_impl_code(a: &String, ms: &Vec<ActorMethod>) -> (s: String)
    ensures
        s@ == handler_impl_text(a@, ms@.map_values(|m: ActorMethod| m@)),
{
    let arms = handler_arms_code(a, ms);
    let mut s = String::from_str("impl threaded_actor::ActorHandler<");
    s.append(a.as_str());
    s.append("Req, ");
    s.append(a.as_str());
    s.append("Res> for ");
    s.append(a.as_str());
    s.append(" {\n    fn handle(&mut self, request: ");
    s.append(a.as_str());
    s.append("Req) -> ");
    s.append(a.as_str());
    s.append("Res {\n        match request {\n");
    s.append(arms.as_str());
    s.append("        }\n    }\n}\n");
    s
}

fn handle_code(a: &String, ms: &Vec<ActorMethod>) -> (s: String)
    ensures
        s@ == handle_text(a@, ms@.map_values(|m: ActorMethod| m@)),
{
    let methods = block_methods_code(a, ms);
    let mut s = String::from_str("pub struct ");
    s.append(a.as_str());
    s.append("Ref {\n    actor_ref: threaded_actor::ActorRef<");
    s.append(a.as_str());
    s.append("Req, ");
    s.append(a.as_str());
    s.append("Res>\n}\nimpl From<threaded_actor::ActorRef<");
    s.append(a.as_str());
    s.append("Req, ");
    s.append(a.as_str());
    s.append("Res>> for ");
    s.append(a.as_str());
    s.append("Ref {\n    fn from(actor_ref: threaded_actor::ActorRef<");
    s.append(a.as_str());
    s.append("Req, ");
    s.append(a.as_str());
    s.append("Res>) -> Self {\n        ");
    s.append(a.as_str());
    s.append("Ref { actor_ref }\n    }\n}\nimpl Clone for ");
    s.append(a.as_str());
    s.append("Ref {\n    fn clone(&self) -> Self {\n        Self { actor_ref: self.actor_ref.clone() }\n    }\n}\nimpl ");
    s.append(a.as_str());
    s.append("Ref {\n");
    s.append(methods.as_str());
    s.append("}\n");
    s
}

/// The items generated for an actor's impl block, as source text: the
/// request enum, the response enum, the handler impl and the typed handle.
pub fn actor_code(actor: &ActorImpl) -> (s: String)
    ensures
        s@ == actor_code_text(actor@),
{
    let a = &actor.self_ty;
    let ms = &actor.methods;
    let mut s = request_enum_code(a, ms);
    let res = response_enum_code(a, ms);
    s.append(res.as_str());
    let handler = handler_impl_code(a, ms);
    s.append(handler.as_str());
    let handle = handle_code(a, ms);
    s.append(handle.as_str());
    s
}

} // verus!
