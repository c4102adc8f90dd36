//! Generates the actor around a struct, and the task that runs an actor.

use vstd::prelude::*;

use crate::ivy_macros::actor::expansion_result;
use crate::methods::{ExpandError, ExpandErrorView};
use crate::syntax::{
    field_views, leading_comma, leading_expr, leading_type, parse_expr, parse_struct, parse_type, parsed_expr,
    parsed_struct, parsed_type, split_comma, split_expr, split_type, FieldSyntax, FieldView, GenericsSyntax,
    GenericsView,
};
use crate::text::{
    join, joined, occurs, occurs_within, piece_occurs_in_joined, piece_stands_in_its_place, runs_are_joined_in_order, texts,
};

verus! {

/// The name of the function that gives access to the channel of an actor.
pub fn channel_fn_name() -> (name: String)
    ensures
        name@ == "__actor_channel"@,
{
    "__actor_channel".to_owned()
}

/// The command type of a handle.
pub open spec fn command_of(handle: Seq<char>) -> Seq<char> {
    "< "@ + handle + " as ::rapid_types::ActorHandle > ::Command"@
}

/// The signals type of a handle.
pub open spec fn signals_of(handle: Seq<char>) -> Seq<char> {
    "< "@ + handle + " as ::rapid_types::ActorHandle > ::Signals"@
}

/// The fields that make a struct an actor: the channel, the lock and the signals.
pub open spec fn injected_fields(handle: Seq<char>) -> Seq<Seq<char>> {
    seq![
        "pub(crate) cmd_channel : ::embassy_sync::channel::Channel < ::embassy_sync::blocking_mutex::raw::CriticalSectionRawMutex , "@
            + command_of(handle) + " , 4 , >"@,
        "pub(crate) call_lock : ::embassy_sync::mutex::Mutex < ::embassy_sync::blocking_mutex::raw::CriticalSectionRawMutex , () , >"@,
        "pub(crate) signals : "@ + signals_of(handle),
    ]
}

/// The declarations of the fields of the actor: those of the struct, then the injected ones.
pub open spec fn actor_fields(handle: Seq<char>, fields: Seq<FieldView>) -> Seq<Seq<char>> {
    fields.map_values(|f: FieldView| f.declaration) + injected_fields(handle)
}

/// The struct up to its fields.
pub open spec fn struct_head(
    attrs: Seq<Seq<char>>,
    vis: Seq<char>,
    name: Seq<char>,
    generics: GenericsView,
) -> Seq<char> {
    joined(attrs, " "@) + " "@ + vis + " struct "@ + name + " "@ + generics.params + " "@
        + generics.where_clause + " { "@
}

/// The parameters of the constructor.
pub open spec fn constructor_params(fields: Seq<FieldView>) -> Seq<char> {
    joined(fields.map_values(|f: FieldView| f.name + " : "@ + f.ty), " , "@)
}

/// The fields that the constructor sets from its parameters.
pub open spec fn constructor_fields(fields: Seq<FieldView>) -> Seq<char> {
    joined(fields.map_values(|f: FieldView| f.name + " , "@), ""@)
}

/// What the actor does: its handle's type, its constructor, its handle, and its next command.
pub open spec fn actor_impls(
    handle: Seq<char>,
    name: Seq<char>,
    generics: GenericsView,
    fields: Seq<FieldView>,
) -> Seq<char> {
    let target = name + " "@ + generics.ty_generics + " "@ + generics.where_clause;
    " } impl "@ + generics.impl_generics + " ::rapid_types::Actor for "@ + target
        + " { type Handle = "@ + handle + " ; } impl "@ + generics.impl_generics + " "@ + target
        + " { pub fn new( "@ + constructor_params(fields) + " ) -> Self { Self { "@
        + constructor_fields(fields)
        + "cmd_channel : ::embassy_sync::channel::Channel::new() , call_lock : ::embassy_sync::mutex::Mutex::new(()) , signals : < "@
        + signals_of(handle) + " > ::new() , } } pub fn handle(&'static self) -> "@ + handle
        + " { < "@ + handle
        + " > ::new( self.cmd_channel.sender() , &self.call_lock , &self.signals , ) } pub async fn next_command(&self) -> "@
        + command_of(handle) + " { self.cmd_channel.receive().await } }"@
}

/// The generated actor.
pub open spec fn actor_text(
    handle: Seq<char>,
    attrs: Seq<Seq<char>>,
    vis: Seq<char>,
    name: Seq<char>,
    generics: GenericsView,
    fields: Seq<FieldView>,
) -> Seq<char> {
    struct_head(attrs, vis, name, generics) + joined(actor_fields(handle, fields), " , "@)
        + actor_impls(handle, name, generics, fields)
}

/// What becomes of a struct: its text is parsed, then the handle's type, and then the struct must
/// have named fields.
pub open spec fn actor_expansion(attrs: Seq<char>, input: Seq<char>) -> Result<
    Seq<char>,
    ExpandErrorView,
> {
    match parsed_struct(input) {
        Err(report) => Err(ExpandErrorView::Syntax(report)),
        Ok(decl) => match parsed_type(attrs) {
            Err(report) => Err(ExpandErrorView::Syntax(report)),
            Ok(handle) => match decl.fields {
                None => Err(ExpandErrorView::UnnamedFields),
                Some(fields) => Ok(
                    actor_text(
                        handle,
                        decl.head.attrs,
                        decl.head.vis,
                        decl.head.name,
                        decl.head.generics,
                        fields,
                    ),
                ),
            },
        },
    }
}

/// Every struct with named fields that parses is expanded, where the handle's type parses.
pub proof fn what_parses_is_expanded(attrs: Seq<char>, input: Seq<char>)
    ensures
        actor_expansion(attrs, input) is Ok <==> {
            &&& parsed_struct(input) matches Ok(decl)
            &&& parsed_type(attrs) is Ok
            &&& decl.fields is Some
        },
        actor_expansion(attrs, input) matches Err(ExpandErrorView::Syntax(_)) ==> parsed_struct(
            input,
        ) is Err || parsed_type(attrs) is Err,
        match (parsed_struct(input), parsed_type(attrs)) {
            (Err(report), _) => actor_expansion(attrs, input) == Err::<Seq<char>, _>(
                ExpandErrorView::Syntax(report),
            ),
            (Ok(_), Err(report)) => actor_expansion(attrs, input) == Err::<Seq<char>, _>(
                ExpandErrorView::Syntax(report),
            ),
            (Ok(decl), Ok(handle)) => match decl.fields {
                Some(fields) => actor_expansion(attrs, input) == Ok::<_, ExpandErrorView>(
                    actor_text(
                        handle,
                        decl.head.attrs,
                        decl.head.vis,
                        decl.head.name,
                        decl.head.generics,
                        fields,
                    ),
                ),
                None => actor_expansion(attrs, input) == Err::<Seq<char>, _>(
                    ExpandErrorView::UnnamedFields,
                ),
            },
        },
{
}

/// The actor keeps every field of the struct, and has the three that make it an actor.
pub proof fn actor_keeps_fields(
    handle: Seq<char>,
    attrs: Seq<Seq<char>>,
    vis: Seq<char>,
    name: Seq<char>,
    generics: GenericsView,
    fields: Seq<FieldView>,
)
    ensures
        forall|i: int|
            0 <= i < fields.len() ==> occurs(
                (#[trigger] fields[i]).declaration,
                actor_text(handle, attrs, vis, name, generics, fields),
            ),
        forall|i: int|
            0 <= i < 3 ==> occurs(
                #[trigger] injected_fields(handle)[i],
                actor_text(handle, attrs, vis, name, generics, fields),
            ),
{
    let all = actor_fields(handle, fields);
    let head = struct_head(attrs, vis, name, generics);
    let tail = actor_impls(handle, name, generics, fields);
    assert forall|i: int| 0 <= i < fields.len() implies occurs(
        (#[trigger] fields[i]).declaration,
        actor_text(handle, attrs, vis, name, generics, fields),
    ) by {
        assert(all[i] == fields[i].declaration);
        piece_occurs_in_joined(all, " , "@, i);
        occurs_within(all[i], head, joined(all, " , "@), tail);
    }
    assert forall|i: int| 0 <= i < 3 implies occurs(
        #[trigger] injected_fields(handle)[i],
        actor_text(handle, attrs, vis, name, generics, fields),
    ) by {
        let at = fields.len() + i;
        assert(all[at] == injected_fields(handle)[i]);
        piece_occurs_in_joined(all, " , "@, at);
        occurs_within(all[at], head, joined(all, " , "@), tail);
    }
}

/// The text in front of a part of a text is in front of all of it.
proof fn front_of_the_whole(front: Seq<char>, behind: Seq<char>, middle: Seq<char>, end: Seq<char>)
    ensures
        front.len() <= (front + behind + middle + end).len(),
        (front + behind + middle + end).take(front.len() as int) == front,
{
    assert((front + behind + middle + end).take(front.len() as int) =~= front);
}

/// The attribute with the number `i` stands behind those before it and in front of those after it.
proof fn attribute_stands_in_its_place(attrs: Seq<Seq<char>>, sep: Seq<char>, i: int)
    requires
        0 <= i < attrs.len(),
    ensures
        joined(attrs, sep) == (if i == 0 {
            Seq::empty()
        } else {
            joined(attrs.take(i), sep) + sep
        }) + attrs[i] + (if i == attrs.len() - 1 {
            Seq::empty()
        } else {
            sep + joined(attrs.skip(i + 1), sep)
        }),
{
    let one = seq![attrs[i]];
    let first = attrs.take(i);
    let last = attrs.skip(i + 1);
    runs_are_joined_in_order(first, one, attrs[i], sep);
    runs_are_joined_in_order(first + one, last, attrs[i], sep);
    assert(first + one + last =~= attrs);
    let before = if i == 0 {
        Seq::empty()
    } else {
        joined(first, sep) + sep
    };
    assert(joined(first + one, sep) =~= before + attrs[i]);
    if i == attrs.len() - 1 {
        assert(joined(attrs, sep) =~= before + attrs[i] + Seq::empty());
    } else {
        assert(joined(attrs, sep) =~= before + attrs[i] + (sep + joined(last, sep)));
    }
}

/// Every attribute of the struct is kept, in order and in front of the visibility: the attribute with
/// the number `i` stands behind those before it and in front of those after it, and all of them stand
/// in front of what `struct` follows.
pub proof fn attributes_are_kept(
    handle: Seq<char>,
    attrs: Seq<Seq<char>>,
    vis: Seq<char>,
    name: Seq<char>,
    generics: GenericsView,
    fields: Seq<FieldView>,
    i: int,
)
    requires
        0 <= i < attrs.len(),
    ensures
        ({
            let text = actor_text(handle, attrs, vis, name, generics, fields);
            let before = if i == 0 {
                Seq::empty()
            } else {
                joined(attrs.take(i), " "@) + " "@
            };
            let after = if i == attrs.len() - 1 {
                Seq::empty()
            } else {
                " "@ + joined(attrs.skip(i + 1), " "@)
            };
            let front = before + attrs[i] + after + " "@ + vis + " struct "@;
            &&& front.len() <= text.len()
            &&& text.take(front.len() as int) == front
            &&& occurs(attrs[i], text.take(before.len() + attrs[i].len() as int))
        }),
{
    let sep = " "@;
    let before = if i == 0 {
        Seq::empty()
    } else {
        joined(attrs.take(i), sep) + sep
    };
    let after = if i == attrs.len() - 1 {
        Seq::empty()
    } else {
        sep + joined(attrs.skip(i + 1), sep)
    };
    attribute_stands_in_its_place(attrs, sep, i);
    let front = before + attrs[i] + after + sep + vis + " struct "@;
    let behind = name + sep + generics.params + sep + generics.where_clause + " { "@;
    let declared = joined(actor_fields(handle, fields), " , "@);
    let impls = actor_impls(handle, name, generics, fields);
    assert(struct_head(attrs, vis, name, generics) =~= front + behind);
    front_of_the_whole(front, behind, declared, impls);
    let text = actor_text(handle, attrs, vis, name, generics, fields);
    assert(text == front + behind + declared + impls);
    let upto = before.len() + attrs[i].len();
    assert(text.take(upto as int) =~= front.take(upto as int));
    assert(front.take(upto as int) =~= before + attrs[i]);
    assert((before + attrs[i]).subrange(before.len() as int, upto as int) =~= attrs[i]);
}

/// The constructor sets each field from the parameter of the same name: the field with the number `i`
/// stands in the same place among the parameters, which have the types of the fields, and among the
/// fields that are set.
pub proof fn constructor_sets_each_field(fields: Seq<FieldView>, i: int)
    requires
        0 <= i < fields.len(),
    ensures
        ({
            let before = fields.take(i);
            let after = fields.skip(i + 1);
            let param = fields[i].name + " : "@ + fields[i].ty;
            &&& constructor_fields(fields) == constructor_fields(before) + (fields[i].name + " , "@)
                + constructor_fields(after)
            &&& constructor_params(fields) == (if i == 0 {
                Seq::empty()
            } else {
                constructor_params(before) + " , "@
            }) + param + (if i == fields.len() - 1 {
                Seq::empty()
            } else {
                " , "@ + constructor_params(after)
            })
        }),
{
    let before = fields.take(i);
    let after = fields.skip(i + 1);
    let sep = " , "@;
    let sets = fields.map_values(|f: FieldView| f.name + " , "@);
    let params = fields.map_values(|f: FieldView| f.name + " : "@ + f.ty);
    piece_stands_in_its_place(sets, i);
    assert(sets.take(i) =~= before.map_values(|f: FieldView| f.name + " , "@));
    assert(sets.skip(i + 1) =~= after.map_values(|f: FieldView| f.name + " , "@));
    let one = seq![params[i]];
    let first = params.take(i);
    let last = params.skip(i + 1);
    assert(first =~= before.map_values(|f: FieldView| f.name + " : "@ + f.ty));
    assert(last =~= after.map_values(|f: FieldView| f.name + " : "@ + f.ty));
    runs_are_joined_in_order(first, one, params[i], sep);
    runs_are_joined_in_order(first + one, last, params[i], sep);
    assert(first + one + last =~= params);
}

/// A struct without fields gets a constructor without parameters.
pub proof fn constructor_of_nothing(fields: Seq<FieldView>)
    requires
        fields.len() == 0,
    ensures
        constructor_params(fields) == Seq::<char>::empty(),
        constructor_fields(fields) == Seq::<char>::empty(),
{
}

/// The generated actor, item by item: the struct with its attributes, its visibility and its
/// parameters, its own fields in order and then the channel for commands, the lock and the signals;
/// the implementation of `Actor` with the type of the handle; and an `impl` with a constructor, a
/// handle that shares the channel, the lock and the signals, and the next command from the channel.
pub proof fn actor_code_item_by_item(
    handle: Seq<char>,
    attrs: Seq<Seq<char>>,
    vis: Seq<char>,
    name: Seq<char>,
    generics: GenericsView,
    fields: Seq<FieldView>,
)
    ensures
        ({
            let params = generics.params;
            let bounds = generics.where_clause;
            let used = generics.ty_generics;
            let given = generics.impl_generics;
            let commands = "< "@ + handle + " as ::rapid_types::ActorHandle > ::Command"@;
            let signals = "< "@ + handle + " as ::rapid_types::ActorHandle > ::Signals"@;
            let declared = joined(
                Seq::new(fields.len(), |i: int| fields[i].declaration) + seq![
                    "pub(crate) cmd_channel : ::embassy_sync::channel::Channel < ::embassy_sync::blocking_mutex::raw::CriticalSectionRawMutex , "@
                        + commands + " , 4 , >"@,
                    "pub(crate) call_lock : ::embassy_sync::mutex::Mutex < ::embassy_sync::blocking_mutex::raw::CriticalSectionRawMutex , () , >"@,
                    "pub(crate) signals : "@ + signals,
                ],
                " , "@,
            );
            let target = name + " "@ + used + " "@ + bounds;
            let the_struct = joined(attrs, " "@) + " "@ + vis + " struct "@ + name + " "@ + params
                + " "@ + bounds + " { "@;
            let the_impls = " } impl "@ + given + " ::rapid_types::Actor for "@ + target
                + " { type Handle = "@ + handle + " ; } impl "@ + given + " "@ + target
                + " { pub fn new( "@ + constructor_params(fields) + " ) -> Self { Self { "@
                + constructor_fields(fields)
                + "cmd_channel : ::embassy_sync::channel::Channel::new() , call_lock : ::embassy_sync::mutex::Mutex::new(()) , signals : < "@
                + signals + " > ::new() , } } pub fn handle(&'static self) -> "@ + handle + " { < "@
                + handle
                + " > ::new( self.cmd_channel.sender() , &self.call_lock , &self.signals , ) } pub async fn next_command(&self) -> "@
                + commands + " { self.cmd_channel.receive().await } }"@;
            actor_text(handle, attrs, vis, name, generics, fields) == the_struct + declared
                + the_impls
        }),
{
    assert(fields.map_values(|f: FieldView| f.declaration) =~= Seq::new(
        fields.len(),
        |i: int| fields[i].declaration,
    ));
}

/// The input of `spawn_actor!` is read from left to right: an expression, a comma, a type, a comma, and
/// an expression to the end. Each part is looked for in what the parts before it have left, and the
/// first one that is not there is what is reported.
pub proof fn spawn_input_is_read_from_left_to_right(
    input: Seq<char>,
    spawner: Seq<char>,
    after_spawner: Seq<char>,
    type_on: Seq<char>,
    actor_type: Seq<char>,
    after_type: Seq<char>,
    actor_on: Seq<char>,
    report: Seq<char>,
)
    ensures
        ({
            let reported = Err::<(Seq<char>, Seq<char>, Seq<char>), _>(report);
            let one = leading_expr(input) == Ok::<_, Seq<char>>((spawner, after_spawner));
            let two = one && leading_comma(after_spawner) == Ok::<_, Seq<char>>(type_on);
            let three = two && leading_type(type_on) == Ok::<_, Seq<char>>((actor_type, after_type));
            let four = three && leading_comma(after_type) == Ok::<_, Seq<char>>(actor_on);
            &&& leading_expr(input) == Err::<(Seq<char>, Seq<char>), _>(report) ==> spawn_input(
                input,
            ) == reported
            &&& one && leading_comma(after_spawner) == Err::<Seq<char>, _>(report) ==> spawn_input(
                input,
            ) == reported
            &&& two && leading_type(type_on) == Err::<(Seq<char>, Seq<char>), _>(report)
                ==> spawn_input(input) == reported
            &&& three && leading_comma(after_type) == Err::<Seq<char>, _>(report) ==> spawn_input(
                input,
            ) == reported
            &&& four ==> spawn_input(input) == match parsed_expr(actor_on) {
                Ok(actor) => Ok::<_, Seq<char>>((spawner, actor_type, actor)),
                Err(last) => Err(last),
            }
        }),
{
}

/// The spawning block, statement by statement: the actor is made first, a task is declared that runs
/// an actor of its type, the spawner spawns the task with the actor that was made, and the handle of
/// the type is what the block gives. Input that cannot be read is reported instead.
pub proof fn spawn_code_statement_by_statement(input: Seq<char>)
    ensures
        match spawn_input(input) {
            Ok((spawner, actor_type, actor)) => {
                spawn_expansion(input) == Ok::<_, ExpandErrorView>(
                    "{ let actor_inst = "@ + actor
                        + " ; #[::embassy_executor::task] async fn __embassy_actor_task(mut instance: "@
                        + actor_type + ") -> ! { < _ as Runnable>::run(instance).await } "@ + spawner
                        + " .must_spawn(__embassy_actor_task(actor_inst)); < "@ + actor_type
                        + " as Actor>::Handle::from_static_parts() }"@,
                )
            },
            Err(report) => spawn_expansion(input) == Err::<Seq<char>, _>(
                ExpandErrorView::Syntax(report),
            ),
        },
{
}

/// The parts of the input of `spawn_actor!`: an expression, a type and an expression, with commas
/// between them. The first part that is missing is what is reported.
pub open spec fn spawn_input(input: Seq<char>) -> Result<
    (Seq<char>, Seq<char>, Seq<char>),
    Seq<char>,
> {
    match leading_expr(input) {
        Err(report) => Err(report),
        Ok((spawner, rest)) => match leading_comma(rest) {
            Err(report) => Err(report),
            Ok(rest) => match leading_type(rest) {
                Err(report) => Err(report),
                Ok((actor_type, rest)) => match leading_comma(rest) {
                    Err(report) => Err(report),
                    Ok(rest) => match parsed_expr(rest) {
                        Err(report) => Err(report),
                        Ok(actor) => Ok((spawner, actor_type, actor)),
                    },
                },
            },
        },
    }
}

/// The block that makes an actor, spawns a task that runs it, and gives its handle.
pub open spec fn spawn_text(
    spawner: Seq<char>,
    actor_type: Seq<char>,
    actor: Seq<char>,
) -> Seq<char> {
    "{ let actor_inst = "@ + actor
        + " ; #[::embassy_executor::task] async fn __embassy_actor_task(mut instance: "@
        + actor_type + ") -> ! { < _ as Runnable>::run(instance).await } "@ + spawner
        + " .must_spawn(__embassy_actor_task(actor_inst)); < "@ + actor_type
        + " as Actor>::Handle::from_static_parts() }"@
}

/// What becomes of `spawn_actor!(input)`.
pub open spec fn spawn_expansion(input: Seq<char>) -> Result<Seq<char>, ExpandErrorView> {
    match spawn_input(input) {
        Err(report) => Err(ExpandErrorView::Syntax(report)),
        Ok((spawner, actor_type, actor)) => Ok(spawn_text(spawner, actor_type, actor)),
    }
}

/// Writes the command type of a handle.
fn command_of_code(handle: &str) -> (out: String)
    ensures
        out@ == command_of(handle@),
{
    let mut out = "< ".to_owned();
    out.append(handle);
    out.append(" as ::rapid_types::ActorHandle > ::Command");
    out
}

/// Writes the signals type of a handle.
fn signals_of_code(handle: &str) -> (out: String)
    ensures
        out@ == signals_of(handle@),
{
    let mut out = "< ".to_owned();
    out.append(handle);
    out.append(" as ::rapid_types::ActorHandle > ::Signals");
    out
}

/// Writes the declarations of the fields of the actor.
fn actor_fields_code(handle: &str, fields: &Vec<FieldSyntax>) -> (out: Vec<String>)
    ensures
        texts(out@) == actor_fields(handle@, field_views(fields@)),
{
    let mut out: Vec<String> = Vec::new();
    let mut i: usize = 0;
    while i < fields.len()
        invariant
            i <= fields@.len(),
            out@.len() == i,
            forall|j: int| 0 <= j < i ==> (#[trigger] out@[j])@ == fields@[j]@.declaration,
        decreases fields@.len() - i,
    {
        out.push(fields[i].declaration.clone());
        i += 1;
    }
    let mut channel =
        "pub(crate) cmd_channel : ::embassy_sync::channel::Channel < ::embassy_sync::blocking_mutex::raw::CriticalSectionRawMutex , ".to_owned();
    channel.append(command_of_code(handle).as_str());
    channel.append(" , 4 , >");
    out.push(channel);
    out.push(
        "pub(crate) call_lock : ::embassy_sync::mutex::Mutex < ::embassy_sync::blocking_mutex::raw::CriticalSectionRawMutex , () , >".to_owned(),
    );
    let mut signals = "pub(crate) signals : ".to_owned();
    signals.append(signals_of_code(handle).as_str());
    out.push(signals);
    assert(texts(out@) =~= actor_fields(handle@, field_views(fields@)));
    out
}

/// Writes the struct up to its fields.
fn struct_head_code(attrs: &Vec<String>, vis: &str, name: &str, generics: &GenericsSyntax) -> (out:
    String)
    ensures
        out@ == struct_head(texts(attrs@), vis@, name@, generics@),
{
    let mut out = join(attrs, " ");
    out.append(" ");
    out.append(vis);
    out.append(" struct ");
    out.append(name);
    out.append(" ");
    out.append(generics.params.as_str());
    out.append(" ");
    out.append(generics.where_clause.as_str());
    out.append(" { ");
    out
}

/// Writes the parameters of the constructor.
fn constructor_params_code(fields: &Vec<FieldSyntax>) -> (out: String)
    ensures
        out@ == constructor_params(field_views(fields@)),
{
    let mut parts: Vec<String> = Vec::new();
    let mut i: usize = 0;
    while i < fields.len()
        invariant
            i <= fields@.len(),
            parts@.len() == i,
            forall|j: int|
                0 <= j < i ==> (#[trigger] parts@[j])@ == fields@[j]@.name + " : "@
                    + fields@[j]@.ty,
        decreases fields@.len() - i,
    {
        parts.push(fields[i].name.clone().concat(" : ").concat(fields[i].ty.as_str()));
        i += 1;
    }
    assert(texts(parts@) =~= field_views(fields@).map_values(
        |f: FieldView| f.name + " : "@ + f.ty,
    ));
    join(&parts, " , ")
}

/// Writes the fields that the constructor sets from its parameters.
fn constructor_fields_code(fields: &Vec<FieldSyntax>) -> (out: String)
    ensures
        out@ == constructor_fields(field_views(fields@)),
{
    let mut parts: Vec<String> = Vec::new();
    let mut i: usize = 0;
    while i < fields.len()
        invariant
            i <= fields@.len(),
            parts@.len() == i,
            forall|j: int| 0 <= j < i ==> (#[trigger] parts@[j])@ == fields@[j]@.name + " , "@,
        decreases fields@.len() - i,
    {
        parts.push(fields[i].name.clone().concat(" , "));
        i += 1;
    }
    assert(texts(parts@) =~= field_views(fields@).map_values(|f: FieldView| f.name + " , "@));
    join(&parts, "")
}

/// Writes what the actor does.
fn actor_impls_code(
    handle: &str,
    name: &str,
    generics: &GenericsSyntax,
    fields: &Vec<FieldSyntax>,
) -> (out: String)
    ensures
        out@ == actor_impls(handle@, name@, generics@, field_views(fields@)),
{
    let mut target = name.to_owned();
    target.append(" ");
    target.append(generics.ty_generics.as_str());
    target.append(" ");
    target.append(generics.where_clause.as_str());
    let mut out = " } impl ".to_owned();
    out.append(generics.impl_generics.as_str());
    out.append(" ::rapid_types::Actor for ");
    out.append(target.as_str());
    out.append(" { type Handle = ");
    out.append(handle);
    out.append(" ; } impl ");
    out.append(generics.impl_generics.as_str());
    out.append(" ");
    out.append(target.as_str());
    out.append(" { pub fn new( ");
    out.append(constructor_params_code(fields).as_str());
    out.append(" ) -> Self { Self { ");
    out.append(constructor_fields_code(fields).as_str());
    out.append(
        "cmd_channel : ::embassy_sync::channel::Channel::new() , call_lock : ::embassy_sync::mutex::Mutex::new(()) , signals : < ",
    );
    out.append(signals_of_code(handle).as_str());
    out.append(" > ::new() , } } pub fn handle(&'static self) -> ");
    out.append(handle);
    out.append(" { < ");
    out.append(handle);
    out.append(
        " > ::new( self.cmd_channel.sender() , &self.call_lock , &self.signals , ) } pub async fn next_command(&self) -> ",
    );
    out.append(command_of_code(handle).as_str());
    out.append(" { self.cmd_channel.receive().await } }");
    out
}

/// Writes the actor for a struct whose parts are known.
pub fn actor_code(
    handle: &str,
    attrs: &Vec<String>,
    vis: &str,
    name: &str,
    generics: &GenericsSyntax,
    fields: &Vec<FieldSyntax>,
) -> (out: String)
    ensures
        out@ == actor_text(
            handle@,
            texts(attrs@),
            vis@,
            name@,
            generics@,
            field_views(fields@),
        ),
{
    let mut out = struct_head_code(attrs, vis, name, generics);
    out.append(join(&actor_fields_code(handle, fields), " , ").as_str());
    out.append(actor_impls_code(handle, name, generics, fields).as_str());
    out
}

/// Expands `#[actor(attrs)]` on the struct `input`.
///
/// `Err(Syntax(_))` holds the `compile_error!` to put in place of the struct.
pub fn expand_actor(attrs: &str, input: &str) -> (out: Result<String, ExpandError>)
    ensures
        expansion_result(out) == actor_expansion(attrs@, input@),
{
    let decl = match parse_struct(input) {
        Ok(decl) => decl,
        Err(report) => return Err(ExpandError::Syntax(report)),
    };
    let handle = match parse_type(attrs) {
        Ok(handle) => handle,
        Err(report) => return Err(ExpandError::Syntax(report)),
    };
    match &decl.fields {
        Some(fields) => Ok(
            actor_code(
                handle.as_str(),
                &decl.head.attrs,
                decl.head.vis.as_str(),
                decl.head.name.as_str(),
                &decl.head.generics,
                fields,
            ),
        ),
        None => Err(ExpandError::UnnamedFields),
    }
}

/// The input of `spawn_actor!`.
pub struct SpawnInput {
    pub spawner: String,
    pub actor_type: String,
    pub actor: String,
}

impl SpawnInput {
    /// Parses the input of `spawn_actor!`.
    pub fn parse(input: &str) -> (out: Result<SpawnInput, String>)
        ensures
            match out {
                Ok(parts) => spawn_input(input@) == Ok::<_, Seq<char>>(
                    (parts.spawner@, parts.actor_type@, parts.actor@),
                ),
                Err(report) => spawn_input(input@) == Err::<
                    (Seq<char>, Seq<char>, Seq<char>),
                    _,
                >(report@),
            },
    {
        let (spawner, rest) = match split_expr(input) {
            Ok(parts) => parts,
            Err(report) => return Err(report),
        };
        let rest = match split_comma(rest.as_str()) {
            Ok(rest) => rest,
            Err(report) => return Err(report),
        };
        let (actor_type, rest) = match split_type(rest.as_str()) {
            Ok(parts) => parts,
            Err(report) => return Err(report),
        };
        let rest = match split_comma(rest.as_str()) {
            Ok(rest) => rest,
            Err(report) => return Err(report),
        };
        match parse_expr(rest.as_str()) {
            Ok(actor) => Ok(SpawnInput { spawner, actor_type, actor }),
            Err(report) => Err(report),
        }
    }
}

/// Writes the block that spawns an actor.
pub fn spawn_code(input: &SpawnInput) -> (out: String)
    ensures
        out@ == spawn_text(input.spawner@, input.actor_type@, input.actor@),
{
    let mut out = "{ let actor_inst = ".to_owned();
    out.append(input.actor.as_str());
    out.append(" ; #[::embassy_executor::task] async fn __embassy_actor_task(mut instance: ");
    out.append(input.actor_type.as_str());
    out.append(") -> ! { < _ as Runnable>::run(instance).await } ");
    out.append(input.spawner.as_str());
    out.append(" .must_spawn(__embassy_actor_task(actor_inst)); < ");
    out.append(input.actor_type.as_str());
    out.append(" as Actor>::Handle::from_static_parts() }");
    out
}

/// Expands `spawn_actor!(input)`.
///
/// `Err(Syntax(_))` holds the `compile_error!` to put in place of the call.
pub fn expand_spawn_actor(input: &str) -> (out: Result<String, ExpandError>)
    ensures
        expansion_result(out) == spawn_expansion(input@),
{
    match SpawnInput::parse(input) {
        Ok(parts) => Ok(spawn_code(&parts)),
        Err(report) => Err(ExpandError::Syntax(report)),
    }
}

} // verus!
