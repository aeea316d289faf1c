//! The client emitter: for each route a method that puts the path
//! parameters into the path by position, appends the query, sends the
//! request and decodes the response by its status.

use vstd::prelude::*;
use vstd::string::*;
use crate::emit::{
    arg_pieces, args_text, body_type_name, declared_args_text, method_name, render_args,
    render_method, ArgStyle,
};
use crate::path::{format_text, placeholders};
use crate::route::{error_type_name, query_type_name, result_text, route_wf, Route, RouteView};
use crate::taxonomy::{taxonomy_of, ErrorType, StatusSource, Variant, VariantView};
use crate::text::{concat, concat_texts, decimal, decimal_text};
use crate::typ::{name_of, type_text};

verus! {

/// The statement that builds the path of a request: the template of the
/// route as a format string, filled with the path parameters from left to
/// right.
pub open spec fn path_statement_text(route: RouteView) -> Seq<char> {
    "    let path = format!(\""@ + format_text(route.path, route.path.len()) + "\""@ + args_text(
        ArgStyle::Positional,
        route.path_args,
    ) + ");\n"@
}

/// The statements that append the query to the address, where the route has
/// query parameters.
pub open spec fn query_block_text(route: RouteView) -> Seq<char> {
    match query_type_name(route) {
        Some(name) => "    {\n        let qstyp = "@ + name + " { "@ + args_text(
            ArgStyle::Listed,
            route.query_params,
        )
            + "};\n        let qs = serde_urlencoded::to_string(qstyp).unwrap();\n        url.set_query(Some(&qs));\n    }\n"@,
        None => ""@,
    }
}

/// The call that sends the request, with the body as JSON where the route
/// has one.
pub open spec fn send_text(route: RouteView) -> Seq<char> {
    if body_type_name(route) is Some {
        ".send_json(&"@ + route.body_name + ")"@
    } else {
        ".send()"@
    }
}

/// The match arm of the success status: it decodes the body as the success
/// type, or yields the empty success.
pub open spec fn success_arm_text(route: RouteView) -> Seq<char> {
    "        "@ + decimal(route.return_ty.status as nat) + " => "@ + (match route.return_ty.typ {
        Some(t) => "resp.json::<"@ + name_of(t)->0 + ">().await.map_err(|e| "@ + error_type_name(
            route,
        ) + "::Error(ClientError::Actix(e.into()))),\n"@,
        None => "Ok(hsr::Success),\n"@,
    })
}

/// The match arm of one variant of the error taxonomy. A variant of a
/// declared status decodes the body as its payload, or yields itself where
/// it has none; the other variants have no arm.
pub open spec fn error_arm_text(error_name: Seq<char>, v: VariantView) -> Seq<char> {
    match v.status {
        StatusSource::Literal(code) => "        "@ + decimal(code as nat) + " => "@ + (
        match v.payload {
            Some(p) => "match resp.json::<"@ + p + ">().await {\n            Ok(json) => Err("@
                + error_name + "::"@ + v.name + "(json)),\n            Err(e) => Err("@
                + error_name + "::Error(ClientError::Actix(e.into()))),\n        },\n"@,
            None => "Err("@ + error_name + "::"@ + v.name + "),\n"@,
        }),
        _ => ""@,
    }
}

/// The match arms of the variants of an error taxonomy, in its order.
pub open spec fn error_arms(error_name: Seq<char>, variants: Seq<VariantView>) -> Seq<Seq<char>> {
    Seq::new(variants.len(), |i: int| error_arm_text(error_name, variants[i]))
}

/// The client method of a route. Any status that has no arm of its own, and
/// any failure of the transport, yields the generic variant of the error
/// taxonomy.
pub open spec fn client_text(route: RouteView) -> Seq<char> {
    "#[allow(unused_mut)]\nasync fn "@ + route.operation_id + "("@ + declared_args_text(route)
        + ") -> "@ + result_text(route) + " {\n"@ + path_statement_text(route)
        + "    let mut url = self.domain.join(&path).unwrap();\n"@ + query_block_text(route)
        + "    let mut resp = self.inner\n        .request(Method::"@ + method_name(route.method)
        + ", url.as_str())\n        "@ + send_text(route)
        + "\n        .await\n        .map_err(|e| "@ + error_type_name(route)
        + "::Error(ClientError::Actix(e.into())))?;\n    match resp.status().as_u16() {\n"@
        + success_arm_text(route) + concat(
        error_arms(error_type_name(route), taxonomy_of(route).variants),
    ) + "        _ => Err("@ + error_type_name(route)
        + "::Error(ClientError::BadStatus(resp.status()))),\n    }\n}\n"@
}

/// The path of a request is filled by position: the format string has one
/// placeholder for each path parameter of a sound route, and its arguments
/// are the path parameters in the order in which the route holds them.
pub proof fn lemma_path_filled_by_position(route: RouteView)
    requires
        route_wf(route),
    ensures
        arg_pieces(ArgStyle::Positional, route.path_args).len() == placeholders(route.path).len(),
        forall|i: int|
            0 <= i < route.path_args.len() ==> (#[trigger] arg_pieces(
                ArgStyle::Positional,
                route.path_args,
            )[i]) == ", "@ + route.path_args[i].name,
{
}

/// The client decodes exactly what the server encodes: each declared error
/// of a sound route has an arm in the client, under the status and the
/// variant that the error taxonomy gives it, and the default and the generic
/// variant have none.
pub proof fn lemma_client_matches_taxonomy(route: RouteView)
    requires
        route_wf(route),
    ensures
        ({
            let variants = taxonomy_of(route).variants;
            let arms = error_arms(error_type_name(route), variants);
            &&& arms.len() == variants.len()
            &&& forall|i: int|
                0 <= i < route.err_tys.len() ==> (#[trigger] variants[i]).status
                    == StatusSource::Literal(route.err_tys[i].status) && arms[i] == error_arm_text(
                    error_type_name(route),
                    variants[i],
                )
            &&& forall|i: int|
                route.err_tys.len() <= i < variants.len() ==> (#[trigger] arms[i]) == ""@
        }),
{
}

/// The match arm of one variant of an error taxonomy.
fn error_arm(error_name: &str, variant: &Variant) -> (text: String)
    ensures
        text@ == error_arm_text(error_name@, variant@),
{
    match variant.status {
        StatusSource::Literal(code) => {
            let action = match &variant.payload {
                Some(p) => {
                    let mut action = String::from_str("match resp.json::<");
                    action.append(p.as_str());
                    action.append(">().await {\n            Ok(json) => Err(");
                    action.append(error_name);
                    action.append("::");
                    action.append(variant.name.as_str());
                    action.append("(json)),\n            Err(e) => Err(");
                    action.append(error_name);
                    action.append("::Error(ClientError::Actix(e.into()))),\n        },\n");
                    action
                },
                None => {
                    let mut action = String::from_str("Err(");
                    action.append(error_name);
                    action.append("::");
                    action.append(variant.name.as_str());
                    action.append("),\n");
                    action
                },
            };
            let mut text = String::from_str("        ");
            text.append(decimal_text(code as u64).as_str());
            text.append(" => ");
            text.append(action.as_str());
            text
        },
        _ => String::from_str(""),
    }
}

impl Route {
    /// The statement that builds the path of a request.
    fn path_statement(&self) -> (text: String)
        ensures
            text@ == path_statement_text(self@),
    {
        proof {
            use_type_invariant(self);
            self.lemma_fields();
        }
        let mut text = String::from_str("    let path = format!(\"");
        text.append(self.path.build_template().as_str());
        text.append("\"");
        text.append(render_args(ArgStyle::Positional, &self.path_args).as_str());
        text.append(");\n");
        text
    }

    /// The statements that append the query to the address.
    fn query_block(&self) -> (text: String)
        ensures
            text@ == query_block_text(self@),
    {
        proof {
            use_type_invariant(self);
            self.lemma_fields();
        }
        match self.generate_query_type_name() {
            Some(name) => {
                let mut text = String::from_str("    {\n        let qstyp = ");
                text.append(name.as_str());
                text.append(" { ");
                text.append(render_args(ArgStyle::Listed, &self.query_params).as_str());
                text.append(
                    "};\n        let qs = serde_urlencoded::to_string(qstyp).unwrap();\n        url.set_query(Some(&qs));\n    }\n",
                );
                text
            },
            None => String::from_str(""),
        }
    }

    /// The call that sends the request.
    fn send_call(&self) -> (text: String)
        ensures
            text@ == send_text(self@),
    {
        proof {
            use_type_invariant(self);
            self.lemma_fields();
        }
        if self.body_type_text().is_some() {
            let mut text = String::from_str(".send_json(&");
            text.append(self.body_name.as_str());
            text.append(")");
            text
        } else {
            String::from_str(".send()")
        }
    }

    /// The match arm of the success status.
    fn success_arm(&self) -> (text: String)
        ensures
            text@ == success_arm_text(self@),
    {
        proof {
            use_type_invariant(self);
            self.lemma_fields();
        }
        let action = match &self.return_ty.typ {
            Some(t) => {
                let mut action = String::from_str("resp.json::<");
                action.append(type_text(t).as_str());
                action.append(">().await.map_err(|e| ");
                action.append(self.return_err_ty().as_str());
                action.append("::Error(ClientError::Actix(e.into()))),\n");
                action
            },
            None => String::from_str("Ok(hsr::Success),\n"),
        };
        let mut text = String::from_str("        ");
        text.append(decimal_text(self.return_ty.status as u64).as_str());
        text.append(" => ");
        text.append(action.as_str());
        text
    }

    /// The match arms of the error taxonomy.
    fn error_arms(&self) -> (text: String)
        ensures
            text@ == concat(error_arms(error_type_name(self@), taxonomy_of(self@).variants)),
    {
        let taxonomy = ErrorType::build(self);
        let ghost variants = taxonomy@.variants;
        let mut arms: Vec<String> = Vec::new();
        let mut i: usize = 0;
        while i < taxonomy.variants.len()
            invariant
                i <= taxonomy.variants.len(),
                variants == taxonomy@.variants,
                arms@.len() == i,
                forall|j: int| 0 <= j < i ==> (#[trigger] arms@[j])@ == error_arm_text(
                    taxonomy.name@,
                    variants[j],
                ),
            decreases taxonomy.variants.len() - i,
        {
            assert(variants[i as int] == taxonomy.variants@[i as int]@);
            arms.push(error_arm(taxonomy.name.as_str(), &taxonomy.variants[i]));
            i += 1;
        }
        assert(arms.deep_view() =~= error_arms(taxonomy.name@, variants));
        concat_texts(&arms)
    }

    /// The client method of the route.
    pub fn generate_client_impl(&self) -> (text: String)
        ensures
            text@ == client_text(self@),
    {
        proof {
            use_type_invariant(self);
            self.lemma_fields();
        }
        let error_name = self.return_err_ty();
        let mut text = String::from_str("#[allow(unused_mut)]\nasync fn ");
        text.append(self.operation_id.as_str());
        text.append("(");
        text.append(self.declared_args().as_str());
        text.append(") -> ");
        text.append(self.return_ty().as_str());
        text.append(" {\n");
        text.append(self.path_statement().as_str());
        text.append("    let mut url = self.domain.join(&path).unwrap();\n");
        text.append(self.query_block().as_str());
        text.append("    let mut resp = self.inner\n        .request(Method::");
        text.append(render_method(&self.method));
        text.append(", url.as_str())\n        ");
        text.append(self.send_call().as_str());
        text.append("\n        .await\n        .map_err(|e| ");
        text.append(error_name.as_str());
        text.append(
            "::Error(ClientError::Actix(e.into())))?;\n    match resp.status().as_u16() {\n",
        );
        text.append(self.success_arm().as_str());
        text.append(self.error_arms().as_str());
        text.append("        _ => Err(");
        text.append(error_name.as_str());
        text.append("::Error(ClientError::BadStatus(resp.status()))),\n    }\n}\n");
        text
    }
}

} // verus!
