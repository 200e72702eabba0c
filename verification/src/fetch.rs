use vstd::prelude::*;
use vstd::string::StringExecFns;
use crate::model::matches_pred;
use crate::value::{jmodel, parsed_json, parse_json, value_as_array};
use crate::filter::{jmodels, filter_response};

verus! {

/// What went wrong while fetching one brand's feed. The four kinds follow
/// the four stages of a fetch: the HTTP request itself, reading the
/// response body, parsing it as JSON, and requiring a top-level array.
#[derive(Debug)]
pub enum FetchErrorKind {
    Transport { url: String },
    BodyRead,
    Parse,
    Shape,
}

/// A per-brand fetch failure: the brand it came from and its cause.
/// One brand's failure never aborts the others; the orchestrator degrades
/// the brand to an empty item list and goes on.
#[derive(Debug)]
pub struct FetchError {
    pub brand: String,
    pub kind: FetchErrorKind,
}

impl FetchErrorKind {
    /// The cause message of this kind of failure.
    pub open spec fn message_spec(&self) -> Seq<char> {
        match *self {
            FetchErrorKind::Transport { url } => "GET "@ + url@ + " failed"@,
            FetchErrorKind::BodyRead => "reading response text failed"@,
            FetchErrorKind::Parse => "JSON parse failed"@,
            FetchErrorKind::Shape => "top-level JSON is not an array"@,
        }
    }

    /// Build the cause message.
    pub fn message(&self) -> (r: String)
        ensures
            r@ == self.message_spec(),
    {
        match self {
            FetchErrorKind::Transport { url } => {
                let mut r = String::from_str("GET ");
                r.append(url.as_str());
                r.append(" failed");
                r
            },
            FetchErrorKind::BodyRead => String::from_str("reading response text failed"),
            FetchErrorKind::Parse => String::from_str("JSON parse failed"),
            FetchErrorKind::Shape => String::from_str("top-level JSON is not an array"),
        }
    }
}

impl FetchError {
    /// The one line a failing brand leaves on the error stream.
    pub open spec fn line_spec(&self) -> Seq<char> {
        "["@ + self.brand@ + "] ERROR: "@ + self.kind.message_spec()
    }

    /// Build the error-stream line for this failure.
    pub fn line(&self) -> (r: String)
        ensures
            r@ == self.line_spec(),
    {
        let mut r = String::from_str("[");
        r.append(self.brand.as_str());
        r.append("] ERROR: ");
        let m = self.kind.message();
        r.append(m.as_str());
        r
    }
}

/// Parse one brand's response body and filter it: the verified tail of a
/// fetch. The body must be valid JSON (else `Parse`) whose top level is an
/// array (else `Shape`); the array's items then pass through the retention
/// filter in order.
pub fn process_body(brand_id: &str, text: &str) -> (r: Result<
    Vec<serde_json::Value>,
    FetchError,
>)
    ensures
        parsed_json(text@) is None ==> (r matches Err(e) && e.kind is Parse && e.brand@
            == brand_id@),
        parsed_json(text@) matches Some(j) ==> (!(j is Arr) ==> (r matches Err(e) && e.kind
            is Shape && e.brand@ == brand_id@)),
        parsed_json(text@) matches Some(j) ==> (j is Arr ==> (r matches Ok(items) && jmodels(
            items@,
        ) == j->Arr_0.filter(matches_pred()))),
{
    match parse_json(text) {
        None => Err(
            FetchError { brand: String::from_str(brand_id), kind: FetchErrorKind::Parse },
        ),
        Some(doc) => match value_as_array(&doc) {
            None => Err(
                FetchError { brand: String::from_str(brand_id), kind: FetchErrorKind::Shape },
            ),
            Some(arr) => {
                proof {
                    assert(jmodels(arr@) =~= jmodel(doc)->Arr_0);
                }
                Ok(filter_response(arr))
            },
        },
    }
}

} // verus!
