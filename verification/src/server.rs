//! The server emitter: for each route the signature of its operation in the
//! service contract, and the adapter that decodes a request, calls the
//! operation and encodes what it returns.

use vstd::prelude::*;
use vstd::string::*;
use crate::emit::{
    args_text, body_type_name, declared_args_text, render_args, ArgStyle,
};
use crate::route::{error_type_name, query_type_name, result_text, Route, RouteView};
use crate::text::{decimal, decimal_text};
use crate::typ::{name_of, type_text};

verus! {

/// The documentation of an operation: its summary, if it has one.
pub open spec fn doc_text(summary: Option<Seq<char>>) -> Seq<char> {
    match summary {
        Some(s) => "/// "@ + s + "\n"@,
        None => ""@,
    }
}

/// The signature of the operation of a route in the service contract: the
/// path parameters, then the query parameters, then the body, returning the
/// success or the error taxonomy.
pub open spec fn signature_text(route: RouteView) -> Seq<char> {
    doc_text(route.summary) + "async fn "@ + route.operation_id + "("@ + declared_args_text(route)
        + ") -> "@ + result_text(route) + ";\n"@
}

/// The extractor of the query parameters, where the route has any.
pub open spec fn query_extractor_text(route: RouteView) -> Seq<char> {
    match query_type_name(route) {
        Some(name) => "    query: AxQuery<"@ + name + ">,\n"@,
        None => ""@,
    }
}

/// The extractor of the request body, where the route has one.
pub open spec fn body_extractor_text(route: RouteView) -> Seq<char> {
    match body_type_name(route) {
        Some(typ) => "    AxJson(body): AxJson<"@ + typ + ">,\n"@,
        None => ""@,
    }
}

/// The statement that takes the query parameters apart, where the route has
/// any.
pub open spec fn query_destructure_text(route: RouteView) -> Seq<char> {
    match query_type_name(route) {
        Some(name) => "    let "@ + name + " { "@ + args_text(ArgStyle::Listed, route.query_params)
            + "} = query.into_inner();\n"@,
        None => ""@,
    }
}

/// What an adapter returns on success: the success type as JSON, or the
/// empty success.
pub open spec fn wrapped_success_text(route: RouteView) -> Seq<char> {
    match route.return_ty.typ {
        Some(t) => "AxJson<"@ + name_of(t)->0 + ">"@,
        None => "hsr::Success"@,
    }
}

/// What an adapter hands to the operation: the path parameters, then the
/// query parameters, then the body.
pub open spec fn call_args_text(route: RouteView) -> Seq<char> {
    let args = args_text(ArgStyle::Unwrapped, route.path_args) + args_text(
        ArgStyle::Listed,
        route.query_params,
    );
    if body_type_name(route) is Some {
        args + "body"@
    } else {
        args
    }
}

/// What an adapter makes of the outcome of the operation before it pairs
/// it with the status: a success with content becomes JSON.
pub open spec fn outcome_text(route: RouteView) -> Seq<char> {
    if route.return_ty.typ is Some {
        "out.map(AxJson)"@
    } else {
        "out"@
    }
}

/// The dispatch adapter of a route over a service contract. It takes the
/// path parameters, the query parameters and the body from the request,
/// calls the operation with them in this order, and pairs a success with
/// the success status of the route.
pub open spec fn dispatcher_text(route: RouteView, trait_name: Seq<char>) -> Seq<char> {
    "async fn "@ + route.operation_id + "<A: "@ + trait_name
        + " + Send + Sync>(\n    data: AxData<A>,\n"@ + args_text(
        ArgStyle::Extractor,
        route.path_args,
    ) + query_extractor_text(route) + body_extractor_text(route) + ") -> AxEither<("@
        + wrapped_success_text(route) + ", StatusCode), "@ + error_type_name(route)
        + "<A::Error>> {\n"@ + query_destructure_text(route) + "    let out = data."@
        + route.operation_id + "("@ + call_args_text(route) + ").await;\n    let out = "@
        + outcome_text(route) + ".map(|return_val| (return_val, StatusCode::from_u16("@ + decimal(
        route.return_ty.status as nat,
    ) + ").unwrap()));\n    hsr::result_to_either(out)\n}\n"@
}

impl Route {
    /// The signature of the operation in the service contract.
    pub fn generate_signature(&self) -> (text: String)
        ensures
            text@ == signature_text(self@),
    {
        proof {
            use_type_invariant(self);
            self.lemma_fields();
        }
        let docs = match &self.summary {
            Some(s) => {
                let mut docs = String::from_str("/// ");
                docs.append(s.as_str());
                docs.append("\n");
                docs
            },
            None => String::from_str(""),
        };
        let mut text = docs;
        text.append("async fn ");
        text.append(self.operation_id.as_str());
        text.append("(");
        text.append(self.declared_args().as_str());
        text.append(") -> ");
        text.append(self.return_ty().as_str());
        text.append(";\n");
        text
    }

    /// The extractor of the query parameters.
    fn query_extractor(&self) -> (text: String)
        ensures
            text@ == query_extractor_text(self@),
    {
        match self.generate_query_type_name() {
            Some(name) => {
                let mut text = String::from_str("    query: AxQuery<");
                text.append(name.as_str());
                text.append(">,\n");
                text
            },
            None => String::from_str(""),
        }
    }

    /// The extractor of the request body.
    fn body_extractor(&self) -> (text: String)
        ensures
            text@ == body_extractor_text(self@),
    {
        match self.body_type_text() {
            Some(typ) => {
                let mut text = String::from_str("    AxJson(body): AxJson<");
                text.append(typ.as_str());
                text.append(">,\n");
                text
            },
            None => String::from_str(""),
        }
    }

    /// The statement that takes the query parameters apart.
    fn query_destructure(&self) -> (text: String)
        ensures
            text@ == query_destructure_text(self@),
    {
        proof {
            use_type_invariant(self);
            self.lemma_fields();
        }
        match self.generate_query_type_name() {
            Some(name) => {
                let mut text = String::from_str("    let ");
                text.append(name.as_str());
                text.append(" { ");
                text.append(render_args(ArgStyle::Listed, &self.query_params).as_str());
                text.append("} = query.into_inner();\n");
                text
            },
            None => String::from_str(""),
        }
    }

    /// What the adapter returns on success.
    fn wrapped_success(&self) -> (text: String)
        ensures
            text@ == wrapped_success_text(self@),
    {
        proof {
            use_type_invariant(self);
            self.lemma_fields();
        }
        match &self.return_ty.typ {
            Some(t) => {
                let mut text = String::from_str("AxJson<");
                text.append(type_text(t).as_str());
                text.append(">");
                text
            },
            None => String::from_str("hsr::Success"),
        }
    }

    /// What the adapter hands to the operation.
    fn call_args(&self) -> (text: String)
        ensures
            text@ == call_args_text(self@),
    {
        proof {
            use_type_invariant(self);
            self.lemma_fields();
        }
        let mut text = render_args(ArgStyle::Unwrapped, &self.path_args);
        text.append(render_args(ArgStyle::Listed, &self.query_params).as_str());
        if self.body_type_text().is_some() {
            text.append("body");
        }
        text
    }

    /// What the adapter makes of the outcome of the operation.
    fn outcome(&self) -> (text: &'static str)
        ensures
            text@ == outcome_text(self@),
    {
        proof {
            use_type_invariant(self);
            self.lemma_fields();
        }
        if self.return_ty.typ.is_some() {
            "out.map(AxJson)"
        } else {
            "out"
        }
    }

    /// The dispatch adapter of the route over the service contract of this
    /// name.
    pub fn generate_dispatcher(&self, trait_name: &str) -> (text: String)
        ensures
            text@ == dispatcher_text(self@, trait_name@),
    {
        proof {
            use_type_invariant(self);
            self.lemma_fields();
        }
        let mut text = String::from_str("async fn ");
        text.append(self.operation_id.as_str());
        text.append("<A: ");
        text.append(trait_name);
        text.append(" + Send + Sync>(\n    data: AxData<A>,\n");
        text.append(render_args(ArgStyle::Extractor, &self.path_args).as_str());
        text.append(self.query_extractor().as_str());
        text.append(self.body_extractor().as_str());
        text.append(") -> AxEither<(");
        text.append(self.wrapped_success().as_str());
        text.append(", StatusCode), ");
        text.append(self.return_err_ty().as_str());
        text.append("<A::Error>> {\n");
        text.append(self.query_destructure().as_str());
        text.append("    let out = data.");
        text.append(self.operation_id.as_str());
        text.append("(");
        text.append(self.call_args().as_str());
        text.append(").await;\n    let out = ");
        text.append(self.outcome());
        text.append(".map(|return_val| (return_val, StatusCode::from_u16(");
        text.append(decimal_text(self.return_ty.status as u64).as_str());
        text.append(").unwrap()));\n    hsr::result_to_either(out)\n}\n");
        text
    }
}

} // verus!
