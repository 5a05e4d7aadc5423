//! One operation: from its description to its plan.
use crate::expansion::{Literal, NestedMeta};
use crate::method::{named, Method, MethodView};
use crate::operation::{BodySource, Operation};
use crate::string_map::copy_pairs;
use crate::url::{split, valid, Url};
use vstd::prelude::*;

verus! {

/// What a parameter of an operation is for.
#[derive(Clone, Copy, Debug, PartialEq, Eq, Structural)]
pub enum Role {
    /// Nothing that the request shows.
    Plain,
    /// It brings headers with each call.
    Headers,
    /// It brings query parameters with each call.
    Queries,
    /// It is the body of the request.
    Body,
    /// Its value fills the placeholder of its name in the path.
    Parameter,
}

/// A parameter of an operation.
#[derive(Debug)]
pub struct Parameter {
    pub name: String,
    /// The type, as written.
    pub ty: String,
    pub role: Role,
}

/// The description of one operation, as declared.
#[derive(Debug)]
pub struct Description {
    /// The name of the operation.
    pub name: String,
    /// The name of the verb; `GET` where none is written.
    pub method: Option<String>,
    /// The path or URL; `/` and the name of the operation where none is
    /// written.
    pub uri: Option<String>,
    pub headers: Vec<(String, String)>,
    pub queries: Vec<(String, String)>,
    /// The body, where the declaration fixes it.
    pub body: Option<String>,
    pub parameters: Vec<Parameter>,
    /// The declared return type, as written.
    pub output: Option<String>,
}

/// What is wrong with a description.
#[derive(Clone, Copy, Debug, PartialEq, Eq, Structural)]
pub enum DefinitionError {
    /// The verb is none of the nine.
    InvalidMethod,
    /// The path or URL is not well formed.
    InvalidUrl,
    /// The parameter at this index brings headers, and an earlier one does
    /// already.
    HeadersAlreadySet { parameter: usize },
    /// The parameter at this index brings query parameters, and an earlier one
    /// does already.
    QueriesAlreadySet { parameter: usize },
    /// The parameter at this index is the body, and the declaration fixes a
    /// body or an earlier parameter is the body already.
    BodyAlreadySet { parameter: usize },
}

/// Why a literal is not the value that a declaration needs.
#[derive(Clone, Copy, Debug, PartialEq, Eq, Structural)]
pub enum ValueError {
    /// The literal is no string.
    NotAString,
    /// The string is not well formed.
    Rejected,
}

/// Why a list is not a header.
#[derive(Clone, Copy, Debug, PartialEq, Eq, Structural)]
pub enum HeaderError {
    /// The list has not two items.
    WrongCount,
    /// An item is a literal and no string.
    NotAString,
    /// An item is no literal.
    NotALiteral,
}

/// A key with its value, as a declaration writes a header or a query
/// parameter.
#[derive(Debug, PartialEq, Eq)]
pub struct Header(pub String, pub String);

/// The roles of a list of parameters.
pub open spec fn roles_of(parameters: Seq<Parameter>) -> Seq<Role> {
    parameters.map_values(|p: Parameter| p.role)
}

/// The index of the first of the first `upto` parameters that has the role
/// `role`.
pub open spec fn first_with(roles: Seq<Role>, role: Role, upto: int) -> Option<usize>
    decreases upto,
{
    if upto <= 0 || upto > roles.len() {
        None
    } else {
        match first_with(roles, role, upto - 1) {
            Some(i) => Some(i),
            None => if roles[upto - 1] == role {
                Some((upto - 1) as usize)
            } else {
                None
            },
        }
    }
}

/// The error, if any, that the parameter at `at` adds: it asks for what the
/// declaration or an earlier parameter has taken.
pub open spec fn repeat_error(roles: Seq<Role>, fixed_body: bool, at: int) -> Seq<DefinitionError> {
    match roles[at] {
        Role::Headers => if first_with(roles, Role::Headers, at) is Some {
            seq![DefinitionError::HeadersAlreadySet { parameter: at as usize }]
        } else {
            Seq::empty()
        },
        Role::Queries => if first_with(roles, Role::Queries, at) is Some {
            seq![DefinitionError::QueriesAlreadySet { parameter: at as usize }]
        } else {
            Seq::empty()
        },
        Role::Body => if fixed_body || first_with(roles, Role::Body, at) is Some {
            seq![DefinitionError::BodyAlreadySet { parameter: at as usize }]
        } else {
            Seq::empty()
        },
        _ => Seq::empty(),
    }
}

/// The errors of the first `upto` parameters, in their order.
pub open spec fn binding_errors(roles: Seq<Role>, fixed_body: bool, upto: int) -> Seq<
    DefinitionError,
>
    decreases upto,
{
    if upto <= 0 || upto > roles.len() {
        Seq::empty()
    } else {
        binding_errors(roles, fixed_body, upto - 1) + repeat_error(roles, fixed_body, upto - 1)
    }
}

/// The error of a verb that is none of the nine.
pub open spec fn method_errors(method: Option<String>) -> Seq<DefinitionError> {
    match method {
        Some(name) => if named(name@) is None {
            seq![DefinitionError::InvalidMethod]
        } else {
            Seq::empty()
        },
        None => Seq::empty(),
    }
}

/// The error of a path or URL that is not well formed.
pub open spec fn uri_errors(uri: Option<String>) -> Seq<DefinitionError> {
    match uri {
        Some(text) => if !valid(split(text@)) {
            seq![DefinitionError::InvalidUrl]
        } else {
            Seq::empty()
        },
        None => Seq::empty(),
    }
}

/// Everything that is wrong with a description: the verb, then the path, then
/// the parameters in their order.
pub open spec fn definition_errors(description: Description) -> Seq<DefinitionError> {
    method_errors(description.method) + uri_errors(description.uri) + binding_errors(
        roles_of(description.parameters@),
        description.body is Some,
        description.parameters@.len() as int,
    )
}

/// The verb of the operation.
pub open spec fn method_of(description: Description) -> Option<MethodView> {
    match description.method {
        Some(name) => named(name@),
        None => Some(MethodView::Get),
    }
}

/// The path or URL of the operation: as written, or `/` and its name.
pub open spec fn wire_path(description: Description) -> Seq<char> {
    match description.uri {
        Some(text) => text@,
        None => seq!['/'] + description.name@,
    }
}

/// Where the body comes from: a parameter, else the text that the declaration
/// fixes, else nowhere.
pub open spec fn body_source(description: Description) -> BodySource {
    match first_with(
        roles_of(description.parameters@),
        Role::Body,
        description.parameters@.len() as int,
    ) {
        Some(i) => BodySource::Parameter(i),
        None => match description.body {
            Some(text) => BodySource::Literal(text),
            None => BodySource::Absent,
        },
    }
}

/// The type of the body on the wire: that of the body parameter, `&str` for a
/// body that the declaration fixes, and the unit type for none.
pub open spec fn request_type(description: Description) -> Seq<char> {
    match body_source(description) {
        BodySource::Parameter(i) => description.parameters@[i as int].ty@,
        BodySource::Literal(_) => "&str"@,
        BodySource::Absent => "()"@,
    }
}

/// The type of the response: the declared return type, or the unit type.
pub open spec fn response_type(description: Description) -> Seq<char> {
    match description.output {
        Some(ty) => ty@,
        None => "()"@,
    }
}

/// Whether `operation` is the plan of `description`.
pub open spec fn compiles_to(description: Description, operation: Operation) -> bool {
    &&& operation.name == description.name
    &&& Some(operation.method@) == method_of(description)
    &&& operation.uri@ == wire_path(description)
    &&& operation.headers@ == description.headers@
    &&& operation.queries@ == description.queries@
    &&& operation.body == body_source(description)
    &&& operation.headers_from == first_with(
        roles_of(description.parameters@),
        Role::Headers,
        description.parameters@.len() as int,
    )
    &&& operation.queries_from == first_with(
        roles_of(description.parameters@),
        Role::Queries,
        description.parameters@.len() as int,
    )
    &&& operation.request_type@ == request_type(description)
    &&& operation.response_type@ == response_type(description)
    &&& operation.expect_body == (description.output is Some)
}

/// A description without errors has at most one parameter of each binding
/// role, and a body from one source at most.
pub proof fn lemma_no_errors_means_single_bindings(
    roles: Seq<Role>,
    fixed_body: bool,
    upto: int,
    i: int,
    j: int,
)
    requires
        0 <= i < j < upto <= roles.len(),
        binding_errors(roles, fixed_body, upto).len() == 0,
    ensures
        roles[i] == roles[j] ==> roles[i] == Role::Plain || roles[i] == Role::Parameter,
        fixed_body ==> roles[i] != Role::Body && roles[j] != Role::Body,
    decreases upto,
{
    if j < upto - 1 {
        lemma_no_errors_means_single_bindings(roles, fixed_body, upto - 1, i, j);
    } else {
        assert(repeat_error(roles, fixed_body, j).len() == 0);
        assert(binding_errors(roles, fixed_body, upto - 1).len() == 0);
        lemma_first_with_finds(roles, roles[i], j, i);
        if fixed_body {
            lemma_no_fixed_body_parameter(roles, upto - 1, i);
        }
    }
}

/// Where the declaration fixes the body and nothing is wrong, no parameter is
/// the body.
proof fn lemma_no_fixed_body_parameter(roles: Seq<Role>, upto: int, i: int)
    requires
        0 <= i < upto <= roles.len(),
        binding_errors(roles, true, upto).len() == 0,
    ensures
        roles[i] != Role::Body,
    decreases upto,
{
    if i < upto - 1 {
        lemma_no_fixed_body_parameter(roles, upto - 1, i);
    } else {
        assert(repeat_error(roles, true, i).len() == 0);
    }
}

/// A role that the parameter at `i` has is found among the first `upto`
/// parameters, where `i` is one of them.
proof fn lemma_first_with_finds(roles: Seq<Role>, role: Role, upto: int, i: int)
    requires
        0 <= i < upto <= roles.len(),
        roles[i] == role,
    ensures
        first_with(roles, role, upto) is Some,
    decreases upto,
{
    if i < upto - 1 {
        lemma_first_with_finds(roles, role, upto - 1, i);
    }
}

/// What `first_with` finds is a parameter of that role, and the first one.
pub proof fn lemma_first_with_is_first(roles: Seq<Role>, role: Role, upto: int)
    requires
        0 <= upto <= roles.len(),
        upto <= usize::MAX,
    ensures
        match first_with(roles, role, upto) {
            Some(i) => i < upto && roles[i as int] == role && forall|j: int|
                0 <= j < i ==> roles[j] != role,
            None => forall|j: int| 0 <= j < upto ==> roles[j] != role,
        },
    decreases upto,
{
    if upto > 0 {
        lemma_first_with_is_first(roles, role, upto - 1);
    }
}

impl Url {
    /// The URL that a literal of a declaration stands for: the literal must
    /// be a string, and the `http` crate must accept what it splits into.
    pub fn from_value(value: &Literal) -> (r: Result<Url, ValueError>)
        ensures
            match *value {
                Literal::Str(text) => if valid(split(text@)) {
                    r matches Ok(url) && url@ == split(text@)
                } else {
                    r == Err::<Url, ValueError>(ValueError::Rejected)
                },
                _ => r == Err::<Url, ValueError>(ValueError::NotAString),
            },
    {
        match value {
            Literal::Str(text) => {
                let url = Url::parse(text.as_str());
                if url.is_valid() {
                    Ok(url)
                } else {
                    Err(ValueError::Rejected)
                }
            },
            _ => Err(ValueError::NotAString),
        }
    }
}

impl Method {
    /// The verb that a literal of a declaration stands for: the literal must
    /// be a string that names one of the nine.
    pub fn from_value(value: &Literal) -> (r: Result<Method, ValueError>)
        ensures
            match *value {
                Literal::Str(text) => match named(text@) {
                    Some(method) => r matches Ok(found) && found@ == method,
                    None => r == Err::<Method, ValueError>(ValueError::Rejected),
                },
                _ => r == Err::<Method, ValueError>(ValueError::NotAString),
            },
    {
        match value {
            Literal::Str(text) => match Method::from_name(text.as_str()) {
                Some(method) => Ok(method),
                None => Err(ValueError::Rejected),
            },
            _ => Err(ValueError::NotAString),
        }
    }
}

/// What a list of items is as a header: a list of two string literals is the
/// header of that key and value; a list of another length has the wrong count;
/// in a list of two, the first item that is no string literal decides.
pub open spec fn header_of(items: Seq<NestedMeta>) -> Result<(Seq<char>, Seq<char>), HeaderError> {
    if items.len() != 2 {
        Err(HeaderError::WrongCount)
    } else {
        match (items[0], items[1]) {
            (NestedMeta::Lit(Literal::Str(key)), NestedMeta::Lit(Literal::Str(value))) => Ok(
                (key@, value@),
            ),
            (NestedMeta::Lit(Literal::Str(_)), NestedMeta::Lit(_)) => Err(HeaderError::NotAString),
            (NestedMeta::Lit(Literal::Str(_)), NestedMeta::Meta(_)) => Err(
                HeaderError::NotALiteral,
            ),
            (NestedMeta::Lit(_), _) => Err(HeaderError::NotAString),
            (NestedMeta::Meta(_), _) => Err(HeaderError::NotALiteral),
        }
    }
}

impl Header {
    /// The header that a list of a declaration stands for.
    pub fn from_list(items: &Vec<NestedMeta>) -> (r: Result<Header, HeaderError>)
        ensures
            match header_of(items@) {
                Ok(pair) => r matches Ok(header) && header.0@ == pair.0 && header.1@ == pair.1,
                Err(e) => r == Err::<Header, HeaderError>(e),
            },
    {
        if items.len() != 2 {
            return Err(HeaderError::WrongCount);
        }
        let key = match &items[0] {
            NestedMeta::Lit(Literal::Str(text)) => text.clone(),
            NestedMeta::Lit(_) => {
                return Err(HeaderError::NotAString);
            },
            NestedMeta::Meta(_) => {
                return Err(HeaderError::NotALiteral);
            },
        };
        let value = match &items[1] {
            NestedMeta::Lit(Literal::Str(text)) => text.clone(),
            NestedMeta::Lit(_) => {
                return Err(HeaderError::NotAString);
            },
            NestedMeta::Meta(_) => {
                return Err(HeaderError::NotALiteral);
            },
        };
        Ok(Header(key, value))
    }

    /// Key and value as a pair.
    pub fn into_pair(self) -> (r: (String, String))
        ensures
            r == (self.0, self.1),
    {
        (self.0, self.1)
    }
}

/// Compiles the description of one operation into its plan.
///
/// Every error of the description is reported, in the order of
/// `definition_errors`, and a description with an error has no plan.
pub fn on_sig(description: &Description) -> (r: Result<Operation, Vec<DefinitionError>>)
    ensures
        match r {
            Ok(operation) => definition_errors(*description).len() == 0 && compiles_to(
                *description,
                operation,
            ),
            Err(errors) => errors@.len() > 0 && errors@ == definition_errors(*description),
        },
{
    let mut errors: Vec<DefinitionError> = Vec::new();
    let method = match &description.method {
        Some(name) => match Method::from_name(name.as_str()) {
            Some(method) => method,
            None => {
                errors.push(DefinitionError::InvalidMethod);
                Method::Get
            },
        },
        None => Method::Get,
    };
    assert(errors@ =~= method_errors(description.method));
    let uri = match &description.uri {
        Some(text) => {
            if !Url::parse(text.as_str()).is_valid() {
                errors.push(DefinitionError::InvalidUrl);
            }
            text.clone()
        },
        None => {
            let path = "/".to_owned().concat(description.name.as_str());
            proof {
                reveal_strlit("/");
                assert(path@ =~= seq!['/'] + description.name@);
            }
            path
        },
    };
    assert(errors@ =~= method_errors(description.method) + uri_errors(description.uri));
    let ghost roles = roles_of(description.parameters@);
    let ghost front = errors@;
    let fixed_body = description.body.is_some();
    let mut headers_from: Option<usize> = None;
    let mut queries_from: Option<usize> = None;
    let mut body_from: Option<usize> = None;
    let mut i: usize = 0;
    assert(errors@ =~= front + binding_errors(roles, fixed_body, 0));
    while i < description.parameters.len()
        invariant
            i <= description.parameters@.len(),
            roles == roles_of(description.parameters@),
            fixed_body == (description.body is Some),
            headers_from == first_with(roles, Role::Headers, i as int),
            queries_from == first_with(roles, Role::Queries, i as int),
            body_from == first_with(roles, Role::Body, i as int),
            errors@ == front + binding_errors(roles, fixed_body, i as int),
        decreases description.parameters@.len() - i,
    {
        let ghost before = errors@;
        let role = description.parameters[i].role;
        assert(role == roles[i as int]);
        match role {
            Role::Headers => {
                if headers_from.is_some() {
                    errors.push(DefinitionError::HeadersAlreadySet { parameter: i });
                } else {
                    headers_from = Some(i);
                }
            },
            Role::Queries => {
                if queries_from.is_some() {
                    errors.push(DefinitionError::QueriesAlreadySet { parameter: i });
                } else {
                    queries_from = Some(i);
                }
            },
            Role::Body => {
                if fixed_body || body_from.is_some() {
                    errors.push(DefinitionError::BodyAlreadySet { parameter: i });
                }
                if body_from.is_none() {
                    body_from = Some(i);
                }
            },
            _ => {},
        }
        assert(errors@ =~= before + repeat_error(roles, fixed_body, i as int));
        assert(errors@ =~= front + binding_errors(roles, fixed_body, i + 1));
        i = i + 1;
    }
    if errors.len() > 0 {
        return Err(errors);
    }
    proof {
        assert(definition_errors(*description) =~= errors@);
        lemma_first_with_is_first(roles, Role::Body, i as int);
    }
    let (body, request_type) = match body_from {
        Some(at) => (BodySource::Parameter(at), description.parameters[at].ty.clone()),
        None => match &description.body {
            Some(text) => (BodySource::Literal(text.clone()), "&str".to_owned()),
            None => (BodySource::Absent, "()".to_owned()),
        },
    };
    let (response_type, expect_body) = match &description.output {
        Some(ty) => (ty.clone(), true),
        None => ("()".to_owned(), false),
    };
    Ok(
        Operation {
            name: description.name.clone(),
            method,
            uri,
            headers: copy_pairs(&description.headers),
            queries: copy_pairs(&description.queries),
            body,
            headers_from,
            queries_from,
            request_type,
            response_type,
            expect_body,
        },
    )
}

} // verus!
