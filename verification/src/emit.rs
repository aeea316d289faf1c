//! Pieces of text that the server and the client emitters share.

use vstd::prelude::*;
use vstd::string::*;
use crate::route::{Method, MethodView, MethodWithBody, MethodWithoutBody, Route, RouteView};
use crate::text::{concat, concat_texts};
use crate::typ::{all_named, fields_view, name_of, slot_name, slot_text, type_text, Field, FieldView};

verus! {

/// The ways in which a list of parameters is written.
#[derive(Debug, Clone, Copy, PartialEq, Eq)]
pub enum ArgStyle {
    /// As arguments of a declared function, after its receiver.
    Declared,
    /// As path extractors of a dispatch adapter, one per line.
    Extractor,
    /// As extracted values handed on to the operation.
    Unwrapped,
    /// By name alone, each followed by a comma.
    Listed,
    /// By name alone, each after a comma: the arguments of a format string,
    /// which fill its placeholders by position.
    Positional,
}

/// One parameter, written in a style.
pub open spec fn arg_piece(style: ArgStyle, f: FieldView) -> Seq<char> {
    match style {
        ArgStyle::Declared => ", "@ + f.name + ": "@ + slot_name(f)->0,
        ArgStyle::Extractor => "    "@ + f.name + ": AxPath<"@ + slot_name(f)->0 + ">,\n"@,
        ArgStyle::Unwrapped => f.name + ".into_inner(), "@,
        ArgStyle::Listed => f.name + ", "@,
        ArgStyle::Positional => ", "@ + f.name,
    }
}

/// The parameters of a list, each written in a style, in the order of the
/// list.
pub open spec fn arg_pieces(style: ArgStyle, fields: Seq<FieldView>) -> Seq<Seq<char>> {
    Seq::new(fields.len(), |i: int| arg_piece(style, fields[i]))
}

/// The parameters of a list as one text.
pub open spec fn args_text(style: ArgStyle, fields: Seq<FieldView>) -> Seq<char> {
    concat(arg_pieces(style, fields))
}

/// The name of a method as the transport spells it.
pub open spec fn method_name(method: MethodView) -> Seq<char> {
    match method {
        MethodView::WithoutBody(MethodWithoutBody::Get) => "GET"@,
        MethodView::WithoutBody(MethodWithoutBody::Head) => "HEAD"@,
        MethodView::WithoutBody(MethodWithoutBody::Options) => "OPTIONS"@,
        MethodView::WithoutBody(MethodWithoutBody::Trace) => "TRACE"@,
        MethodView::WithBody { method: MethodWithBody::Post, .. } => "POST"@,
        MethodView::WithBody { method: MethodWithBody::Delete, .. } => "DELETE"@,
        MethodView::WithBody { method: MethodWithBody::Put, .. } => "PUT"@,
        MethodView::WithBody { method: MethodWithBody::Patch, .. } => "PATCH"@,
    }
}

/// The name of the type of the request body, where the route has one.
pub open spec fn body_type_name(route: RouteView) -> Option<Seq<char>> {
    match route.method {
        MethodView::WithBody { body_type: Some(t), .. } => name_of(t),
        _ => None,
    }
}

/// The argument of a declared function that carries the request body.
pub open spec fn body_arg_text(route: RouteView) -> Seq<char> {
    match body_type_name(route) {
        Some(typ) => ", "@ + route.body_name + ": "@ + typ,
        None => ""@,
    }
}

/// Everything between the parentheses of the function declared for a route:
/// the receiver, the path parameters, the query parameters and the body, in
/// this order.
pub open spec fn declared_args_text(route: RouteView) -> Seq<char> {
    "&self"@ + args_text(ArgStyle::Declared, route.path_args) + args_text(
        ArgStyle::Declared,
        route.query_params,
    ) + body_arg_text(route)
}

/// One parameter, written in a style.
fn render_arg(style: ArgStyle, field: &Field) -> (text: String)
    requires
        name_of(field@.typ) is Some,
    ensures
        text@ == arg_piece(style, field@),
{
    match style {
        ArgStyle::Declared => {
            let mut text = String::from_str(", ");
            text.append(field.name.as_str());
            text.append(": ");
            text.append(slot_text(field).as_str());
            text
        },
        ArgStyle::Extractor => {
            let mut text = String::from_str("    ");
            text.append(field.name.as_str());
            text.append(": AxPath<");
            text.append(slot_text(field).as_str());
            text.append(">,\n");
            text
        },
        ArgStyle::Unwrapped => {
            let mut text = field.name.clone();
            text.append(".into_inner(), ");
            text
        },
        ArgStyle::Listed => {
            let mut text = field.name.clone();
            text.append(", ");
            text
        },
        ArgStyle::Positional => {
            let mut text = String::from_str(", ");
            text.append(field.name.as_str());
            text
        },
    }
}

/// The parameters of a list as one text.
pub(crate) fn render_args(style: ArgStyle, fields: &Vec<Field>) -> (text: String)
    requires
        all_named(fields_view(fields@)),
    ensures
        text@ == args_text(style, fields_view(fields@)),
{
    let ghost views = fields_view(fields@);
    let mut pieces: Vec<String> = Vec::new();
    let mut i: usize = 0;
    while i < fields.len()
        invariant
            i <= fields.len(),
            views == fields_view(fields@),
            all_named(views),
            pieces@.len() == i,
            forall|j: int| 0 <= j < i ==> (#[trigger] pieces@[j])@ == arg_piece(style, views[j]),
        decreases fields.len() - i,
    {
        assert(views[i as int] == fields@[i as int]@);
        pieces.push(render_arg(style, &fields[i]));
        i += 1;
    }
    assert(pieces.deep_view() =~= arg_pieces(style, views));
    concat_texts(&pieces)
}

/// The name of a method as the transport spells it.
pub(crate) fn render_method(method: &Method) -> (text: &'static str)
    ensures
        text@ == method_name(method@),
{
    match method {
        Method::WithoutBody(MethodWithoutBody::Get) => "GET",
        Method::WithoutBody(MethodWithoutBody::Head) => "HEAD",
        Method::WithoutBody(MethodWithoutBody::Options) => "OPTIONS",
        Method::WithoutBody(MethodWithoutBody::Trace) => "TRACE",
        Method::WithBody { method: MethodWithBody::Post, .. } => "POST",
        Method::WithBody { method: MethodWithBody::Delete, .. } => "DELETE",
        Method::WithBody { method: MethodWithBody::Put, .. } => "PUT",
        Method::WithBody { method: MethodWithBody::Patch, .. } => "PATCH",
    }
}

impl Route {
    /// The name of the type of the request body, where the route has one.
    pub(crate) fn body_type_text(&self) -> (name: Option<String>)
        ensures
            match name {
                Some(n) => body_type_name(self@) == Some(n@),
                None => body_type_name(self@) is None,
            },
    {
        proof {
            use_type_invariant(self);
            self.lemma_fields();
        }
        match &self.method {
            Method::WithBody { body_type: Some(t), .. } => Some(type_text(t)),
            _ => None,
        }
    }

    /// Everything between the parentheses of the function declared for the
    /// route.
    pub(crate) fn declared_args(&self) -> (text: String)
        ensures
            text@ == declared_args_text(self@),
    {
        proof {
            use_type_invariant(self);
            self.lemma_fields();
        }
        let mut text = String::from_str("&self");
        text.append(render_args(ArgStyle::Declared, &self.path_args).as_str());
        text.append(render_args(ArgStyle::Declared, &self.query_params).as_str());
        let body = match self.body_type_text() {
            Some(typ) => {
                let mut arg = String::from_str(", ");
                arg.append(self.body_name.as_str());
                arg.append(": ");
                arg.append(typ.as_str());
                arg
            },
            None => String::from_str(""),
        };
        text.append(body.as_str());
        text
    }
}

} // verus!
