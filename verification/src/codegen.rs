//! Fragments of generated code that list the parameters of a method.

use vstd::prelude::*;

use crate::methods::{arg_views, Arg, ArgView};
use crate::text::{join, joined, piece_stands_in_its_place, texts};

verus! {

/// The types of the parameters, a comma behind each.
pub open spec fn type_list(args: Seq<ArgView>) -> Seq<char> {
    joined(args.map_values(|a: ArgView| a.ty + " , "@), ""@)
}

/// The names of the parameters, a comma behind each.
pub open spec fn name_list(args: Seq<ArgView>) -> Seq<char> {
    joined(args.map_values(|a: ArgView| a.name + " , "@), ""@)
}

/// The parameters as a function declares them, a comma before each.
pub open spec fn param_list(args: Seq<ArgView>) -> Seq<char> {
    joined(args.map_values(|a: ArgView| " , "@ + a.name + " : "@ + a.ty), ""@)
}

/// The three lists go by the same parameters: in each of them, what comes from a parameter stands
/// behind what comes from the parameters before it, and in front of what comes from those after it.
pub proof fn lists_go_by_the_parameters(args: Seq<ArgView>, i: int)
    requires
        0 <= i < args.len(),
    ensures
        type_list(args) == type_list(args.take(i)) + (args[i].ty + " , "@) + type_list(
            args.skip(i + 1),
        ),
        name_list(args) == name_list(args.take(i)) + (args[i].name + " , "@) + name_list(
            args.skip(i + 1),
        ),
        param_list(args) == param_list(args.take(i)) + (" , "@ + args[i].name + " : "@ + args[i].ty)
            + param_list(args.skip(i + 1)),
{
    let types = args.map_values(|a: ArgView| a.ty + " , "@);
    let names = args.map_values(|a: ArgView| a.name + " , "@);
    let params = args.map_values(|a: ArgView| " , "@ + a.name + " : "@ + a.ty);
    piece_stands_in_its_place(types, i);
    piece_stands_in_its_place(names, i);
    piece_stands_in_its_place(params, i);
    assert(types.take(i) =~= args.take(i).map_values(|a: ArgView| a.ty + " , "@));
    assert(types.skip(i + 1) =~= args.skip(i + 1).map_values(|a: ArgView| a.ty + " , "@));
    assert(names.take(i) =~= args.take(i).map_values(|a: ArgView| a.name + " , "@));
    assert(names.skip(i + 1) =~= args.skip(i + 1).map_values(|a: ArgView| a.name + " , "@));
    assert(params.take(i) =~= args.take(i).map_values(
        |a: ArgView| " , "@ + a.name + " : "@ + a.ty,
    ));
    assert(params.skip(i + 1) =~= args.skip(i + 1).map_values(
        |a: ArgView| " , "@ + a.name + " : "@ + a.ty,
    ));
}

/// Without parameters there is nothing to list.
pub proof fn nothing_is_listed_of_nothing(args: Seq<ArgView>)
    requires
        args.len() == 0,
    ensures
        type_list(args) == Seq::<char>::empty(),
        name_list(args) == Seq::<char>::empty(),
        param_list(args) == Seq::<char>::empty(),
{
}

/// Writes the types of the parameters, a comma behind each.
pub fn types_code(args: &Vec<Arg>) -> (out: String)
    ensures
        out@ == type_list(arg_views(args@)),
{
    let mut parts: Vec<String> = Vec::new();
    let mut i: usize = 0;
    while i < args.len()
        invariant
            i <= args@.len(),
            parts@.len() == i,
            forall|j: int| 0 <= j < i ==> (#[trigger] parts@[j])@ == args@[j]@.ty + " , "@,
        decreases args@.len() - i,
    {
        parts.push(args[i].ty.clone().concat(" , "));
        i += 1;
    }
    assert(texts(parts@) =~= arg_views(args@).map_values(|a: ArgView| a.ty + " , "@));
    join(&parts, "")
}

/// Writes the names of the parameters, a comma behind each.
pub fn names_code(args: &Vec<Arg>) -> (out: String)
    ensures
        out@ == name_list(arg_views(args@)),
{
    let mut parts: Vec<String> = Vec::new();
    let mut i: usize = 0;
    while i < args.len()
        invariant
            i <= args@.len(),
            parts@.len() == i,
            forall|j: int| 0 <= j < i ==> (#[trigger] parts@[j])@ == args@[j]@.name + " , "@,
        decreases args@.len() - i,
    {
        parts.push(args[i].name.clone().concat(" , "));
        i += 1;
    }
    assert(texts(parts@) =~= arg_views(args@).map_values(|a: ArgView| a.name + " , "@));
    join(&parts, "")
}

/// Writes the parameters as a function declares them, a comma before each.
pub fn params_code(args: &Vec<Arg>) -> (out: String)
    ensures
        out@ == param_list(arg_views(args@)),
{
    let mut parts: Vec<String> = Vec::new();
    let mut i: usize = 0;
    while i < args.len()
        invariant
            i <= args@.len(),
            parts@.len() == i,
            forall|j: int|
                0 <= j < i ==> (#[trigger] parts@[j])@ == " , "@ + args@[j]@.name + " : "@
                    + args@[j]@.ty,
        decreases args@.len() - i,
    {
        let mut part = " , ".to_owned();
        part.append(args[i].name.as_str());
        part.append(" : ");
        part.append(args[i].ty.as_str());
        parts.push(part);
        i += 1;
    }
    assert(texts(parts@) =~= arg_views(args@).map_values(
        |a: ArgView| " , "@ + a.name + " : "@ + a.ty,
    ));
    join(&parts, "")
}

} // verus!
