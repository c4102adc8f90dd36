//! The methods of an actor's interface, as generated code needs them.

use vstd::prelude::*;

use crate::syntax::{
    check_identifier, input_views, is_identifier, member_views, pascal_case, text_option, to_pascal_case, InputSyntax,
    InputView, MemberSyntax, MemberView,
};

verus! {

/// Why no code can be generated.
pub enum ExpandError {
    /// The input is not what the macro works on. Holds the `compile_error!` that says so.
    Syntax(String),
    /// A method's variant would have this name, which is no identifier.
    Identifier(String),
    /// The struct has no named fields.
    UnnamedFields,
}

/// What [`ExpandError`] holds.
pub enum ExpandErrorView {
    Syntax(Seq<char>),
    Identifier(Seq<char>),
    UnnamedFields,
}

impl View for ExpandError {
    type V = ExpandErrorView;

    open spec fn view(&self) -> ExpandErrorView {
        match self {
            ExpandError::Syntax(report) => ExpandErrorView::Syntax(report@),
            ExpandError::Identifier(name) => ExpandErrorView::Identifier(name@),
            ExpandError::UnnamedFields => ExpandErrorView::UnnamedFields,
        }
    }
}

/// A parameter of a method, apart from `self`.
pub struct Arg {
    pub name: String,
    pub ty: String,
}

/// What [`Arg`] holds.
pub struct ArgView {
    pub name: Seq<char>,
    pub ty: Seq<char>,
}

impl View for Arg {
    type V = ArgView;

    open spec fn view(&self) -> ArgView {
        ArgView { name: self.name@, ty: self.ty@ }
    }
}

/// A method of an actor's interface.
pub struct MethodInfo {
    pub name: String,
    /// The variant of the command enum that carries a call of this method.
    pub variant: String,
    pub args: Vec<Arg>,
    /// The type of the reply.
    pub ret: String,
}

/// What [`MethodInfo`] holds.
pub struct MethodView {
    pub name: Seq<char>,
    pub variant: Seq<char>,
    pub args: Seq<ArgView>,
    pub ret: Seq<char>,
}

impl View for MethodInfo {
    type V = MethodView;

    open spec fn view(&self) -> MethodView {
        MethodView {
            name: self.name@,
            variant: self.variant@,
            args: arg_views(self.args@),
            ret: self.ret@,
        }
    }
}

pub open spec fn arg_views(args: Seq<Arg>) -> Seq<ArgView> {
    args.map_values(|a: Arg| a@)
}

pub open spec fn method_views(methods: Seq<MethodInfo>) -> Seq<MethodView> {
    methods.map_values(|m: MethodInfo| m@)
}

/// A described method shows its name, its variant, all its arguments in order, each with its name and
/// its type, and its type of reply.
pub proof fn method_shows_its_parts(info: MethodInfo, methods: Seq<MethodInfo>)
    ensures
        info@.name == info.name@,
        info@.variant == info.variant@,
        info@.ret == info.ret@,
        info@.args.len() == info.args@.len(),
        forall|i: int|
            0 <= i < info.args@.len() ==> {
                &&& (#[trigger] info@.args[i]).name == info.args@[i].name@
                &&& info@.args[i].ty == info.args@[i].ty@
            },
        method_views(methods).len() == methods.len(),
        forall|i: int| 0 <= i < methods.len() ==> #[trigger] method_views(methods)[i] == methods[i]@,
{
}

/// An error shows the report or the name that it holds.
pub proof fn error_shows_what_it_holds(text: String)
    ensures
        ExpandError::Syntax(text)@ == ExpandErrorView::Syntax(text@),
        ExpandError::Identifier(text)@ == ExpandErrorView::Identifier(text@),
        ExpandError::UnnamedFields@ == ExpandErrorView::UnnamedFields,
{
}

/// An identifier without the mark of a raw identifier.
pub open spec fn unraw(ident: Seq<char>) -> Seq<char> {
    if ident.len() >= 2 && ident[0] == 'r' && ident[1] == '#' {
        ident.skip(2)
    } else {
        ident
    }
}

/// A parameter with a plain name, as an argument.
pub open spec fn arg_of(input: InputView) -> ArgView {
    ArgView { name: input->name, ty: input->ty }
}

/// The arguments of a method: its parameters that have a plain name, in order.
pub open spec fn named_args(inputs: Seq<InputView>) -> Seq<ArgView> {
    inputs.filter(|input: InputView| input is Named).map_values(|input: InputView| arg_of(input))
}

/// The reply of a method: the type that it returns, or the unit type where none is written.
pub open spec fn reply_type(output: Option<Seq<char>>) -> Seq<char> {
    match output {
        Some(ty) => ty,
        None => "()"@,
    }
}

/// The description of a method, given the name of its variant.
pub open spec fn method_view(
    name: Seq<char>,
    inputs: Seq<InputView>,
    output: Option<Seq<char>>,
    variant: Seq<char>,
) -> MethodView {
    MethodView { name, variant, args: named_args(inputs), ret: reply_type(output) }
}

/// The methods among the members of a trait, in order, or the name of the first variant that is no
/// identifier.
pub open spec fn methods_of(members: Seq<MemberView>) -> Result<Seq<MethodView>, Seq<char>>
    decreases members.len(),
{
    if members.len() == 0 {
        Ok(Seq::empty())
    } else {
        match methods_of(members.drop_last()) {
            Err(name) => Err(name),
            Ok(front) => match members.last() {
                MemberView::Other => Ok(front),
                MemberView::Method { name, inputs, output } => if is_identifier(pascal_case(name)) {
                    Ok(front.push(method_view(name, inputs, output, pascal_case(name))))
                } else {
                    Err(pascal_case(name))
                },
            },
        }
    }
}

/// The functions among the members of a trait, in order.
pub open spec fn functions(members: Seq<MemberView>) -> Seq<MemberView> {
    members.filter(|member: MemberView| member is Method)
}

/// Each function of a trait has a variant with an identifier for its name.
pub open spec fn variants_have_names(members: Seq<MemberView>) -> bool {
    forall|i: int|
        0 <= i < members.len() ==> ((#[trigger] members[i]) matches MemberView::Method {
            name,
            ..
        } ==> is_identifier(pascal_case(name)))
}

/// The described methods are the functions of the trait, each once and in order. There is a
/// description whenever each function has a variant with an identifier for its name.
pub proof fn methods_are_the_functions(members: Seq<MemberView>)
    ensures
        methods_of(members) is Ok <==> variants_have_names(members),
        methods_of(members) matches Ok(methods) ==> {
            &&& methods.len() == functions(members).len()
            &&& forall|i: int|
                0 <= i < methods.len() ==> (functions(members)[i] matches MemberView::Method {
                    name,
                    inputs,
                    output,
                } && (#[trigger] methods[i]) == method_view(
                    name,
                    inputs,
                    output,
                    pascal_case(name),
                ))
        },
    decreases members.len(),
{
    reveal(Seq::filter);
    if members.len() > 0 {
        let front = members.drop_last();
        methods_are_the_functions(front);
        assert(forall|i: int| 0 <= i < front.len() ==> front[i] == members[i]);
        assert(members[members.len() - 1] == members.last());
        if variants_have_names(front) && methods_of(members) is Ok {
            assert forall|i: int| 0 <= i < members.len() implies ((
            #[trigger] members[i]) matches MemberView::Method { name, .. } ==> is_identifier(
                pascal_case(name),
            )) by {
                if i < front.len() {
                    assert(front[i] == members[i]);
                }
            }
        }
        if variants_have_names(members) {
            assert forall|i: int| 0 <= i < front.len() implies ((
            #[trigger] front[i]) matches MemberView::Method { name, .. } ==> is_identifier(
                pascal_case(name),
            )) by {
                assert(members[i] == front[i]);
            }
        }
    }
}

/// One more parameter adds at most one argument.
proof fn args_of_one_more(inputs: Seq<InputView>, n: int)
    requires
        0 <= n < inputs.len(),
    ensures
        named_args(inputs.take(n + 1)) == if inputs[n] is Named {
            named_args(inputs.take(n)).push(arg_of(inputs[n]))
        } else {
            named_args(inputs.take(n))
        },
{
    reveal(Seq::filter);
    assert(inputs.take(n + 1).drop_last() =~= inputs.take(n));
    assert(inputs.take(n + 1).last() == inputs[n]);
    let named = |input: InputView| input is Named;
    let front = inputs.take(n).filter(named);
    if inputs[n] is Named {
        assert(front.push(inputs[n]).map_values(|input: InputView| arg_of(input)) =~= front.map_values(
            |input: InputView| arg_of(input),
        ).push(arg_of(inputs[n])));
    }
}

/// The arguments of a method are its parameters with a plain name, in order: before such a parameter
/// come the arguments of the parameters before it.
pub proof fn args_are_the_named_parameters(inputs: Seq<InputView>, i: int)
    requires
        0 <= i < inputs.len(),
        inputs[i] is Named,
    ensures
        named_args(inputs.take(i)).len() < named_args(inputs).len(),
        named_args(inputs)[named_args(inputs.take(i)).len() as int] == arg_of(inputs[i]),
        named_args(inputs).take(named_args(inputs.take(i)).len() as int) == named_args(
            inputs.take(i),
        ),
    decreases inputs.len(),
{
    let last = inputs.len() - 1;
    args_of_one_more(inputs, last);
    assert(inputs.take(last + 1) =~= inputs);
    if i < last {
        let front = inputs.take(last);
        assert(front.take(i) =~= inputs.take(i));
        args_are_the_named_parameters(front, i);
    }
}

/// Parameters in two runs give the arguments of the first run, then those of the second. One parameter
/// gives one argument, with its name and its type, where it has a plain name, and none otherwise.
pub proof fn arguments_come_in_order(first: Seq<InputView>, second: Seq<InputView>, input: InputView)
    ensures
        named_args(first + second) == named_args(first) + named_args(second),
        named_args(Seq::empty()) == Seq::<ArgView>::empty(),
        named_args(seq![input]) == match input {
            InputView::Named { name, ty } => seq![ArgView { name, ty }],
            _ => Seq::empty(),
        },
    decreases second.len(),
{
    reveal(Seq::filter);
    assert(named_args(Seq::empty()) =~= Seq::<ArgView>::empty());
    let one = seq![input];
    args_of_one_more(one, 0);
    assert(one.take(0) =~= Seq::empty());
    assert(one.take(1) =~= one);
    if input is Named {
        assert(named_args(one) =~= seq![arg_of(input)]);
    }
    if second.len() == 0 {
        assert(first + second =~= first);
        assert(second =~= Seq::empty());
        assert(named_args(first) + named_args(second) =~= named_args(first));
    } else {
        let last = second.len() - 1;
        let all = first + second;
        arguments_come_in_order(first, second.take(last), input);
        args_of_one_more(second, last);
        args_of_one_more(all, all.len() - 1);
        assert(second.take(last + 1) =~= second);
        assert(all.take(all.len() - 1) =~= first + second.take(last));
        assert(all.take(all.len() as int) =~= all);
        assert(named_args(all) =~= named_args(first) + named_args(second));
    }
}

/// A described method has the name of the function, a variant named after it, the arguments of the
/// function, and its type of reply, which is the unit type where none is written.
pub proof fn method_is_described_by_its_parts(
    name: Seq<char>,
    inputs: Seq<InputView>,
    output: Option<Seq<char>>,
    variant: Seq<char>,
)
    ensures
        ({
            let m = method_view(name, inputs, output, variant);
            &&& m.name == name
            &&& m.variant == variant
            &&& m.args == named_args(inputs)
            &&& output matches Some(ty) ==> m.ret == ty
            &&& output is None ==> m.ret == "()"@
        }),
{
}

/// Members in two runs give the methods of the first run, then those of the second, and the first
/// variant without an identifier for its name is reported. One function gives one method, whose
/// variant is its name in capitals, and any other member gives none.
pub proof fn methods_come_in_order(
    first: Seq<MemberView>,
    second: Seq<MemberView>,
    name: Seq<char>,
    inputs: Seq<InputView>,
    output: Option<Seq<char>>,
)
    ensures
        methods_of(first) is Err ==> methods_of(first + second) == methods_of(first),
        methods_of(first) is Ok && methods_of(second) is Err ==> methods_of(first + second)
            == methods_of(second),
        methods_of(first) is Ok && methods_of(second) is Ok ==> methods_of(first + second) == Ok::<
            _,
            Seq<char>,
        >(methods_of(first)->Ok_0 + methods_of(second)->Ok_0),
        methods_of(seq![MemberView::Other]) == Ok::<_, Seq<char>>(Seq::<MethodView>::empty()),
        ({
            let made = methods_of(seq![MemberView::Method { name, inputs, output }]);
            let variant = pascal_case(name);
            if is_identifier(variant) {
                &&& made is Ok
                &&& made->Ok_0.len() == 1
                &&& made->Ok_0[0].name == name
                &&& made->Ok_0[0].variant == variant
                &&& made->Ok_0[0].args == named_args(inputs)
                &&& made->Ok_0[0].ret == match output {
                    Some(ty) => ty,
                    None => "()"@,
                }
            } else {
                made == Err::<Seq<MethodView>, _>(variant)
            }
        }),
    decreases second.len(),
{
    let other = seq![MemberView::Other];
    let one = seq![MemberView::Method { name, inputs, output }];
    assert(other.drop_last() =~= Seq::empty());
    assert(one.drop_last() =~= Seq::empty());
    reveal_with_fuel(methods_of, 2);
    if second.len() == 0 {
        assert(first + second =~= first);
        if methods_of(first) is Ok {
            assert(methods_of(first)->Ok_0 + methods_of(second)->Ok_0 =~= methods_of(first)->Ok_0);
        }
    } else {
        let front = second.drop_last();
        methods_come_in_order(first, front, name, inputs, output);
        assert((first + second).drop_last() =~= first + front);
        assert((first + second).last() == second.last());
        if methods_of(first) is Ok && methods_of(second) is Ok {
            assert(methods_of(first + second)->Ok_0 =~= methods_of(first)->Ok_0 + methods_of(
                second,
            )->Ok_0);
        }
    }
}

/// A raw identifier is the identifier with a mark in front of it, and any other one has no mark to
/// lose.
pub proof fn only_the_mark_is_lost(ident: Seq<char>)
    ensures
        unraw(seq!['r', '#'] + ident) == ident,
        !(ident.len() >= 2 && ident[0] == 'r' && ident[1] == '#') ==> unraw(ident) == ident,
{
    assert((seq!['r', '#'] + ident).skip(2) =~= ident);
}

/// Once a variant has no identifier for its name, the members after it change nothing.
proof fn first_fault_stays(members: Seq<MemberView>, n: int)
    requires
        0 <= n <= members.len(),
        methods_of(members.take(n)) is Err,
    ensures
        methods_of(members) == methods_of(members.take(n)),
    decreases members.len() - n,
{
    if n < members.len() {
        assert(members.take(n + 1).drop_last() =~= members.take(n));
        first_fault_stays(members, n + 1);
    } else {
        assert(members.take(n) =~= members);
    }
}

/// Strips the mark of a raw identifier.
pub fn strip_raw(ident: &str) -> (out: String)
    ensures
        out@ == unraw(ident@),
{
    let len = ident.unicode_len();
    if len >= 2 && ident.get_char(0) == 'r' && ident.get_char(1) == '#' {
        let rest = ident.substring_char(2, len);
        assert(rest@ =~= ident@.skip(2));
        rest.to_owned()
    } else {
        ident.to_owned()
    }
}

/// Describes a method, given the name of its variant.
pub fn method_info(
    name: String,
    inputs: &Vec<InputSyntax>,
    output: Option<String>,
    variant: String,
) -> (info: MethodInfo)
    ensures
        info@ == method_view(name@, input_views(inputs@), text_option(output), variant@),
{
    let ghost views = input_views(inputs@);
    let mut args: Vec<Arg> = Vec::new();
    let mut i: usize = 0;
    proof {
        reveal(Seq::filter);
        assert(arg_views(args@) =~= named_args(views.take(0)));
    }
    while i < inputs.len()
        invariant
            views == input_views(inputs@),
            i <= inputs@.len(),
            arg_views(args@) == named_args(views.take(i as int)),
        decreases inputs@.len() - i,
    {
        let ghost before = args@;
        match &inputs[i] {
            InputSyntax::Named { name, ty } => {
                args.push(Arg { name: name.clone(), ty: ty.clone() });
            },
            _ => {},
        }
        proof {
            args_of_one_more(views, i as int);
            assert(views[i as int] == inputs@[i as int]@);
            assert(arg_views(args@) =~= named_args(views.take(i + 1)));
        }
        i += 1;
    }
    assert(views.take(i as int) =~= views);
    let ret = match output {
        Some(ty) => ty,
        None => "()".to_owned(),
    };
    MethodInfo { name, variant, args, ret }
}

/// Finds the methods among the members of a trait, or the name of a variant that is no identifier.
pub fn collect_methods(members: &Vec<MemberSyntax>) -> (out: Result<Vec<MethodInfo>, String>)
    ensures
        match out {
            Ok(methods) => methods_of(member_views(members@)) == Ok::<_, Seq<char>>(
                method_views(methods@),
            ),
            Err(name) => methods_of(member_views(members@)) == Err::<Seq<MethodView>, _>(name@),
        },
{
    let ghost all = member_views(members@);
    let mut methods: Vec<MethodInfo> = Vec::new();
    let mut i: usize = 0;
    assert(all.take(0) =~= Seq::empty());
    assert(method_views(methods@) =~= Seq::empty());
    while i < members.len()
        invariant
            all == member_views(members@),
            i <= members@.len(),
            methods_of(all.take(i as int)) == Ok::<_, Seq<char>>(method_views(methods@)),
        decreases members@.len() - i,
    {
        let ghost next = all.take(i + 1);
        proof {
            assert(next.drop_last() =~= all.take(i as int));
            assert(next.last() == members@[i as int]@);
        }
        match &members[i] {
            MemberSyntax::Other => {},
            MemberSyntax::Method { name, inputs, output } => {
                let variant = to_pascal_case(name.as_str());
                if !check_identifier(variant.as_str()) {
                    proof {
                        first_fault_stays(all, i + 1);
                    }
                    return Err(variant);
                }
                let ghost before = methods@;
                let info = method_info(name.clone(), inputs, output.clone(), variant);
                methods.push(info);
                assert(method_views(methods@) =~= method_views(before).push(info@));
            },
        }
        i += 1;
    }
    assert(all.take(i as int) =~= all);
    Ok(methods)
}

} // verus!
