//! The error taxonomy of a route: the union of the ways in which its
//! operation can fail, each tied to a status.
//!
//! There is one variant for each declared error response, in the order of
//! declaration, one for the default error where the route has one, and last
//! the one generic variant, which wraps the error of the implementation and
//! covers whatever else goes wrong.

use vstd::prelude::*;
use vstd::string::*;
use crate::route::{error_type_name, outcomes_view, route_wf, OutcomeView, Route, RouteView};
use crate::text::{concat, concat_texts, decimal, decimal_text};
use crate::typ::{name_of, type_text, TypView};

verus! {

/// Where the status of a variant comes from.
#[derive(Debug, Clone, Copy, PartialEq, Eq)]
pub enum StatusSource {
    /// The variant stands for this one status code.
    Literal(u16),
    /// The payload of the variant carries its own status.
    Payload,
    /// The wrapped error is asked for its status.
    Delegate,
}

/// One variant of an error taxonomy.
#[derive(Debug, Clone, PartialEq, Eq)]
pub struct Variant {
    pub name: String,
    /// The type of the payload, for a variant that has one.
    pub payload: Option<String>,
    pub status: StatusSource,
}

/// The error taxonomy of one route.
#[derive(Debug, Clone, PartialEq, Eq)]
pub struct ErrorType {
    pub name: String,
    pub variants: Vec<Variant>,
}

/// A [`Variant`] as contracts speak of it.
pub struct VariantView {
    pub name: Seq<char>,
    pub payload: Option<Seq<char>>,
    pub status: StatusSource,
}

/// An [`ErrorType`] as contracts speak of it.
pub struct ErrorTypeView {
    pub name: Seq<char>,
    pub variants: Seq<VariantView>,
}

impl View for Variant {
    type V = VariantView;

    open spec fn view(&self) -> VariantView {
        VariantView {
            name: self.name@,
            payload: match self.payload {
                Some(p) => Some(p@),
                None => None,
            },
            status: self.status,
        }
    }
}

impl View for ErrorType {
    type V = ErrorTypeView;

    open spec fn view(&self) -> ErrorTypeView {
        ErrorTypeView {
            name: self.name@,
            variants: Seq::new(self.variants@.len(), |i: int| self.variants@[i]@),
        }
    }
}

/// The name of the variant of a status code: `E` and the code.
pub open spec fn variant_name(code: u16) -> Seq<char> {
    "E"@ + decimal(code as nat)
}

/// The variant of a declared error response.
pub open spec fn declared_variant(outcome: OutcomeView) -> VariantView {
    VariantView {
        name: variant_name(outcome.status),
        payload: match outcome.typ {
            Some(t) => name_of(t),
            None => None,
        },
        status: StatusSource::Literal(outcome.status),
    }
}

/// The variant of the default error.
pub open spec fn default_variant(typ: TypView) -> VariantView {
    VariantView { name: "Default"@, payload: name_of(typ), status: StatusSource::Payload }
}

/// The generic variant, which wraps the error of the implementation.
pub open spec fn generic_variant() -> VariantView {
    VariantView { name: "Error"@, payload: Some("E"@), status: StatusSource::Delegate }
}

/// The error taxonomy of a route.
pub open spec fn taxonomy_of(route: RouteView) -> ErrorTypeView {
    ErrorTypeView {
        name: error_type_name(route),
        variants: Seq::new(route.err_tys.len(), |i: int| declared_variant(route.err_tys[i])) + (
        match route.default_err_ty {
            Some(t) => seq![default_variant(t)],
            None => Seq::empty(),
        }) + seq![generic_variant()],
    }
}

/// The taxonomy of a sound route has one variant for each declared error, in
/// the order of declaration and with the status of that error; then one for
/// the default error, where there is one; and last the generic variant.
/// Every variant but the generic one takes its status from elsewhere than
/// the wrapped error, so exactly one variant is generic.
pub proof fn lemma_taxonomy_shape(route: RouteView)
    requires
        route_wf(route),
    ensures
        ({
            let variants = taxonomy_of(route).variants;
            let declared = route.err_tys.len();
            &&& variants.len() == declared + (if route.default_err_ty is Some {
                1nat
            } else {
                0nat
            }) + 1
            &&& forall|i: int|
                0 <= i < declared ==> (#[trigger] variants[i]).status == StatusSource::Literal(
                    route.err_tys[i].status,
                ) && (variants[i].payload is Some <==> route.err_tys[i].typ is Some)
            &&& route.default_err_ty is Some ==> variants[declared as int].status
                == StatusSource::Payload && variants[declared as int].payload is Some
            &&& variants.last() == generic_variant()
            &&& forall|i: int|
                0 <= i < variants.len() - 1 ==> (#[trigger] variants[i]).status
                    != StatusSource::Delegate
        }),
{
}

/// The line that declares a variant.
pub open spec fn variant_line(v: VariantView) -> Seq<char> {
    match v.payload {
        Some(p) => "    "@ + v.name + "("@ + p + "),\n"@,
        None => "    "@ + v.name + ",\n"@,
    }
}

/// The pattern that matches a variant whatever it carries.
pub open spec fn variant_pattern(v: VariantView) -> Seq<char> {
    if v.payload is Some {
        v.name + "(_)"@
    } else {
        v.name
    }
}

/// The match arm that gives the status of a variant.
pub open spec fn status_arm(v: VariantView) -> Seq<char> {
    match v.status {
        StatusSource::Literal(code) => "            "@ + variant_pattern(v)
            + " => StatusCode::from_u16("@ + decimal(code as nat) + ").unwrap(),\n"@,
        _ => "            "@ + v.name + "(e) => e.status_code(),\n"@,
    }
}

/// The match arm that answers a request with a variant: the status alone,
/// or the status and the payload as JSON where the variant is of a declared
/// or default error and carries one.
pub open spec fn respond_arm(v: VariantView) -> Seq<char> {
    if v.payload is Some && v.status != StatusSource::Delegate {
        "            "@ + v.name + "(payload) => HttpResponse::build(status).json(payload),\n"@
    } else if v.payload is Some {
        "            "@ + v.name + "(_) => HttpResponse::build(status).finish(),\n"@
    } else {
        "            "@ + v.name + " => HttpResponse::build(status).finish(),\n"@
    }
}

/// The lines that declare the variants.
pub open spec fn variant_lines(variants: Seq<VariantView>) -> Seq<Seq<char>> {
    Seq::new(variants.len(), |i: int| variant_line(variants[i]))
}

/// The match arms that give the statuses of the variants.
pub open spec fn status_arms(variants: Seq<VariantView>) -> Seq<Seq<char>> {
    Seq::new(variants.len(), |i: int| status_arm(variants[i]))
}

/// The match arms that answer a request with the variants.
pub open spec fn respond_arms(variants: Seq<VariantView>) -> Seq<Seq<char>> {
    Seq::new(variants.len(), |i: int| respond_arm(variants[i]))
}

/// The declaration of an error taxonomy: the union itself, its conversion
/// from the error of the implementation, its mapping to statuses, and its
/// answer to a request.
pub open spec fn declaration_text(e: ErrorTypeView) -> Seq<char> {
    "#[derive(Debug)]\npub enum "@ + e.name + "<E: HasStatusCode> {\n"@ + concat(
        variant_lines(e.variants),
    ) + "}\n\nimpl<E: HasStatusCode> From<E> for "@ + e.name
        + "<E> {\n    fn from(e: E) -> Self {\n        Self::Error(e)\n    }\n}\n\nimpl<E: HasStatusCode> HasStatusCode for "@
        + e.name + "<E> {\n    fn status_code(&self) -> StatusCode {\n        use "@ + e.name
        + "::*;\n        match self {\n"@ + concat(status_arms(e.variants))
        + "        }\n    }\n}\n\nimpl<E: HasStatusCode> Responder for "@ + e.name
        + "<E> {\n    type Error = Void;\n    type Future = Ready<Result<HttpResponse, <Self as Responder>::Error>>;\n\n    fn respond_to(self, _: &HttpRequest) -> Self::Future {\n        let status = self.status_code();\n        use "@
        + e.name + "::*;\n        fut_ok(match self {\n"@ + concat(respond_arms(e.variants))
        + "        })\n    }\n}\n"@
}

/// The name of the variant of a status code.
pub fn error_variant_from_status_code(code: u16) -> (name: String)
    ensures
        name@ == variant_name(code),
{
    let mut name = String::from_str("E");
    name.append(decimal_text(code as u64).as_str());
    name
}

impl Variant {
    /// The line that declares the variant.
    fn line(&self) -> (text: String)
        ensures
            text@ == variant_line(self@),
    {
        let mut text = String::from_str("    ");
        text.append(self.name.as_str());
        match &self.payload {
            Some(p) => {
                text.append("(");
                text.append(p.as_str());
                text.append("),\n");
            },
            None => {
                text.append(",\n");
            },
        }
        text
    }

    /// The match arm that gives the status of the variant.
    fn status_arm(&self) -> (text: String)
        ensures
            text@ == status_arm(self@),
    {
        let mut text = String::from_str("            ");
        match self.status {
            StatusSource::Literal(code) => {
                let mut pattern = self.name.clone();
                if self.payload.is_some() {
                    pattern.append("(_)");
                }
                text.append(pattern.as_str());
                text.append(" => StatusCode::from_u16(");
                text.append(decimal_text(code as u64).as_str());
                text.append(").unwrap(),\n");
            },
            _ => {
                text.append(self.name.as_str());
                text.append("(e) => e.status_code(),\n");
            },
        }
        text
    }

    /// The match arm that answers a request with the variant.
    fn respond_arm(&self) -> (text: String)
        ensures
            text@ == respond_arm(self@),
    {
        let mut text = String::from_str("            ");
        text.append(self.name.as_str());
        let delegate = match self.status {
            StatusSource::Delegate => true,
            _ => false,
        };
        if self.payload.is_some() && !delegate {
            text.append("(payload) => HttpResponse::build(status).json(payload),\n");
        } else if self.payload.is_some() {
            text.append("(_) => HttpResponse::build(status).finish(),\n");
        } else {
            text.append(" => HttpResponse::build(status).finish(),\n");
        }
        text
    }
}

impl ErrorType {
    /// Builds the error taxonomy of a route.
    pub fn build(route: &Route) -> (taxonomy: ErrorType)
        ensures
            taxonomy@ == taxonomy_of(route@),
    {
        proof {
            use_type_invariant(route);
            route.lemma_fields();
        }
        let name = route.return_err_ty();
        let mut variants: Vec<Variant> = Vec::new();
        let mut i: usize = 0;
        while i < route.err_tys.len()
            invariant
                i <= route.err_tys.len(),
                route_wf(route@),
                route@.err_tys == outcomes_view(route.err_tys@),
                variants@.len() == i,
                forall|j: int| 0 <= j < i ==> (#[trigger] variants@[j])@ == declared_variant(
                    route@.err_tys[j],
                ),
            decreases route.err_tys.len() - i,
        {
            let outcome = &route.err_tys[i];
            assert(route@.err_tys[i as int] == outcome@);
            let payload = match &outcome.typ {
                Some(t) => Some(type_text(t)),
                None => None,
            };
            variants.push(
                Variant {
                    name: error_variant_from_status_code(outcome.status),
                    payload,
                    status: StatusSource::Literal(outcome.status),
                },
            );
            i += 1;
        }
        if let Some(t) = &route.default_err_ty {
            variants.push(
                Variant {
                    name: String::from_str("Default"),
                    payload: Some(type_text(t)),
                    status: StatusSource::Payload,
                },
            );
        }
        variants.push(
            Variant {
                name: String::from_str("Error"),
                payload: Some(String::from_str("E")),
                status: StatusSource::Delegate,
            },
        );
        let taxonomy = ErrorType { name, variants };
        assert(taxonomy@.variants =~= taxonomy_of(route@).variants);
        taxonomy
    }

    /// The texts of the variants under one of their renderings.
    fn variant_lines(&self) -> (lines: Vec<String>)
        ensures
            lines.deep_view() == variant_lines(self@.variants),
    {
        let mut lines: Vec<String> = Vec::new();
        let mut i: usize = 0;
        while i < self.variants.len()
            invariant
                i <= self.variants.len(),
                lines@.len() == i,
                forall|j: int| 0 <= j < i ==> (#[trigger] lines@[j])@ == variant_line(
                    self.variants@[j]@,
                ),
            decreases self.variants.len() - i,
        {
            lines.push(self.variants[i].line());
            i += 1;
        }
        assert(lines.deep_view() =~= variant_lines(self@.variants));
        lines
    }

    /// The match arms that give the statuses of the variants.
    fn status_arms(&self) -> (lines: Vec<String>)
        ensures
            lines.deep_view() == status_arms(self@.variants),
    {
        let mut lines: Vec<String> = Vec::new();
        let mut i: usize = 0;
        while i < self.variants.len()
            invariant
                i <= self.variants.len(),
                lines@.len() == i,
                forall|j: int| 0 <= j < i ==> (#[trigger] lines@[j])@ == status_arm(
                    self.variants@[j]@,
                ),
            decreases self.variants.len() - i,
        {
            lines.push(self.variants[i].status_arm());
            i += 1;
        }
        assert(lines.deep_view() =~= status_arms(self@.variants));
        lines
    }

    /// The match arms that answer a request with the variants.
    fn respond_arms(&self) -> (lines: Vec<String>)
        ensures
            lines.deep_view() == respond_arms(self@.variants),
    {
        let mut lines: Vec<String> = Vec::new();
        let mut i: usize = 0;
        while i < self.variants.len()
            invariant
                i <= self.variants.len(),
                lines@.len() == i,
                forall|j: int| 0 <= j < i ==> (#[trigger] lines@[j])@ == respond_arm(
                    self.variants@[j]@,
                ),
            decreases self.variants.len() - i,
        {
            lines.push(self.variants[i].respond_arm());
            i += 1;
        }
        assert(lines.deep_view() =~= respond_arms(self@.variants));
        lines
    }

    /// Declares the taxonomy.
    pub fn declaration(&self) -> (text: String)
        ensures
            text@ == declaration_text(self@),
    {
        let name = self.name.as_str();
        let mut text = String::from_str("#[derive(Debug)]\npub enum ");
        text.append(name);
        text.append("<E: HasStatusCode> {\n");
        text.append(concat_texts(&self.variant_lines()).as_str());
        text.append("}\n\nimpl<E: HasStatusCode> From<E> for ");
        text.append(name);
        text.append(
            "<E> {\n    fn from(e: E) -> Self {\n        Self::Error(e)\n    }\n}\n\nimpl<E: HasStatusCode> HasStatusCode for ",
        );
        text.append(name);
        text.append("<E> {\n    fn status_code(&self) -> StatusCode {\n        use ");
        text.append(name);
        text.append("::*;\n        match self {\n");
        text.append(concat_texts(&self.status_arms()).as_str());
        text.append("        }\n    }\n}\n\nimpl<E: HasStatusCode> Responder for ");
        text.append(name);
        text.append(
            "<E> {\n    type Error = Void;\n    type Future = Ready<Result<HttpResponse, <Self as Responder>::Error>>;\n\n    fn respond_to(self, _: &HttpRequest) -> Self::Future {\n        let status = self.status_code();\n        use ",
        );
        text.append(name);
        text.append("::*;\n        fut_ok(match self {\n");
        text.append(concat_texts(&self.respond_arms()).as_str());
        text.append("        })\n    }\n}\n");
        text
    }
}

impl Route {
    /// Declares the error taxonomy of the route.
    pub fn generate_error_enum_def(&self) -> (text: String)
        ensures
            text@ == declaration_text(taxonomy_of(self@)),
    {
        ErrorType::build(self).declaration()
    }
}

} // verus!
