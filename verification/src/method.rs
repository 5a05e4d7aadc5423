//! The verbs of a request.
use crate::text::same_text;
use vstd::prelude::*;

verus! {

/// The verb of a request: one of the nine that a transport must serve, or any
/// other token, which a transport refuses.
#[derive(Debug, PartialEq, Eq)]
pub enum Method {
    Head,
    Get,
    Post,
    Put,
    Patch,
    Delete,
    Options,
    Connect,
    Trace,
    /// A verb outside the nine, kept as it was written.
    Other(String),
}

/// The mathematical value of a `Method`.
pub ghost enum MethodView {
    Head,
    Get,
    Post,
    Put,
    Patch,
    Delete,
    Options,
    Connect,
    Trace,
    Other(Seq<char>),
}

impl View for Method {
    type V = MethodView;

    open spec fn view(&self) -> MethodView {
        match self {
            Method::Head => MethodView::Head,
            Method::Get => MethodView::Get,
            Method::Post => MethodView::Post,
            Method::Put => MethodView::Put,
            Method::Patch => MethodView::Patch,
            Method::Delete => MethodView::Delete,
            Method::Options => MethodView::Options,
            Method::Connect => MethodView::Connect,
            Method::Trace => MethodView::Trace,
            Method::Other(token) => MethodView::Other(token@),
        }
    }
}

/// Whether a transport must serve the verb.
pub open spec fn supported(method: MethodView) -> bool {
    !(method is Other)
}

/// The verb that the upper-case name `name` stands for, if it is one of the
/// nine.
pub open spec fn named(name: Seq<char>) -> Option<MethodView> {
    if name == "HEAD"@ {
        Some(MethodView::Head)
    } else if name == "GET"@ {
        Some(MethodView::Get)
    } else if name == "POST"@ {
        Some(MethodView::Post)
    } else if name == "PUT"@ {
        Some(MethodView::Put)
    } else if name == "PATCH"@ {
        Some(MethodView::Patch)
    } else if name == "DELETE"@ {
        Some(MethodView::Delete)
    } else if name == "OPTIONS"@ {
        Some(MethodView::Options)
    } else if name == "CONNECT"@ {
        Some(MethodView::Connect)
    } else if name == "TRACE"@ {
        Some(MethodView::Trace)
    } else {
        None
    }
}

/// The name of a verb as it goes on the wire.
pub open spec fn name_of(method: MethodView) -> Seq<char> {
    match method {
        MethodView::Head => "HEAD"@,
        MethodView::Get => "GET"@,
        MethodView::Post => "POST"@,
        MethodView::Put => "PUT"@,
        MethodView::Patch => "PATCH"@,
        MethodView::Delete => "DELETE"@,
        MethodView::Options => "OPTIONS"@,
        MethodView::Connect => "CONNECT"@,
        MethodView::Trace => "TRACE"@,
        MethodView::Other(token) => token,
    }
}

/// The nine names differ from each other.
proof fn lemma_names_differ()
    ensures
        "HEAD"@.len() == 4 && "HEAD"@[0] == 'H',
        "GET"@.len() == 3 && "GET"@[0] == 'G',
        "POST"@.len() == 4 && "POST"@[0] == 'P' && "POST"@[1] == 'O',
        "PUT"@.len() == 3 && "PUT"@[0] == 'P',
        "PATCH"@.len() == 5 && "PATCH"@[0] == 'P',
        "DELETE"@.len() == 6 && "DELETE"@[0] == 'D',
        "OPTIONS"@.len() == 7 && "OPTIONS"@[0] == 'O',
        "CONNECT"@.len() == 7 && "CONNECT"@[0] == 'C',
        "TRACE"@.len() == 5 && "TRACE"@[0] == 'T',
{
    reveal_strlit("HEAD");
    reveal_strlit("GET");
    reveal_strlit("POST");
    reveal_strlit("PUT");
    reveal_strlit("PATCH");
    reveal_strlit("DELETE");
    reveal_strlit("OPTIONS");
    reveal_strlit("CONNECT");
    reveal_strlit("TRACE");
}

/// A supported verb is found again under its own name.
pub proof fn lemma_name_round_trip(method: MethodView)
    requires
        supported(method),
    ensures
        named(name_of(method)) == Some(method),
{
    lemma_names_differ();
}

impl Clone for Method {
    fn clone(&self) -> (r: Self)
        ensures
            r == *self,
    {
        match self {
            Method::Head => Method::Head,
            Method::Get => Method::Get,
            Method::Post => Method::Post,
            Method::Put => Method::Put,
            Method::Patch => Method::Patch,
            Method::Delete => Method::Delete,
            Method::Options => Method::Options,
            Method::Connect => Method::Connect,
            Method::Trace => Method::Trace,
            Method::Other(token) => Method::Other(token.clone()),
        }
    }
}

impl Default for Method {
    /// The verb of an operation that names none.
    fn default() -> (r: Self)
        ensures
            r == Method::Get,
    {
        Method::Get
    }
}

impl Method {
    /// The verb that `name` stands for: one of the nine under its upper-case
    /// name, and no verb under any other text.
    pub fn from_name(name: &str) -> (r: Option<Method>)
        ensures
            match named(name@) {
                Some(m) => r matches Some(found) && found@ == m,
                None => r is None,
            },
            r matches Some(found) ==> supported(found@),
    {
        if same_text(name, "HEAD") {
            Some(Method::Head)
        } else if same_text(name, "GET") {
            Some(Method::Get)
        } else if same_text(name, "POST") {
            Some(Method::Post)
        } else if same_text(name, "PUT") {
            Some(Method::Put)
        } else if same_text(name, "PATCH") {
            Some(Method::Patch)
        } else if same_text(name, "DELETE") {
            Some(Method::Delete)
        } else if same_text(name, "OPTIONS") {
            Some(Method::Options)
        } else if same_text(name, "CONNECT") {
            Some(Method::Connect)
        } else if same_text(name, "TRACE") {
            Some(Method::Trace)
        } else {
            None
        }
    }

    /// The name of this verb as it goes on the wire.
    pub fn as_str(&self) -> (r: String)
        ensures
            r@ == name_of(self@),
    {
        match self {
            Method::Head => "HEAD".to_owned(),
            Method::Get => "GET".to_owned(),
            Method::Post => "POST".to_owned(),
            Method::Put => "PUT".to_owned(),
            Method::Patch => "PATCH".to_owned(),
            Method::Delete => "DELETE".to_owned(),
            Method::Options => "OPTIONS".to_owned(),
            Method::Connect => "CONNECT".to_owned(),
            Method::Trace => "TRACE".to_owned(),
            Method::Other(token) => token.clone(),
        }
    }

    /// Whether a transport must serve this verb.
    pub fn is_supported(&self) -> (r: bool)
        ensures
            r == supported(self@),
    {
        match self {
            Method::Other(_) => false,
            _ => true,
        }
    }
}

} // verus!
