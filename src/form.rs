use vstd::prelude::*;
use crate::token::ApiError;

verus! {

/// The id of the login form on the authorization page.
pub const LOGIN_FORM_ID: &'static str = "frm-authorizeForm";

/// What select finds in an HTML document: `None` if no element has the id, else
/// the named attribute of the first element that has it, if present.
pub uninterp spec fn html_attr_by_id(html: Seq<char>, id: Seq<char>, attr: Seq<char>) -> Option<Option<Seq<char>>>;

/// Relies on select: `Document::from` parses the HTML, `find(Attr("id", id)).nth(0)`
/// takes the first element with that id, and `Node::attr` reads its attribute.
#[verifier::external_body]
fn element_attr_by_id(html: &str, id: &str, attr: &str) -> (r: Option<Option<String>>)
    ensures
        r is None ==> html_attr_by_id(html@, id@, attr@) is None,
        r matches Some(None) ==> html_attr_by_id(html@, id@, attr@) == Some(None::<Seq<char>>),
        r matches Some(Some(v)) ==> html_attr_by_id(html@, id@, attr@) == Some(Some(v@)),
{
    let document = select::document::Document::from(html);
    match document.find(select::predicate::Attr("id", id)).nth(0) {
        None => None,
        Some(element) => Some(element.attr(attr).map(String::from)),
    }
}

/// The outcome of looking up the login form's action: no form, a form without
/// action, or the action.
pub open spec fn spec_login_action(found: Option<Option<Seq<char>>>) -> Result<Seq<char>, ApiError> {
    match found {
        None => Err(ApiError::FormNotFound),
        Some(None) => Err(ApiError::ActionMissing),
        Some(Some(a)) => Ok(a),
    }
}

/// Turns the result of the form lookup into the form's action or the error that
/// tells why there is none.
pub fn login_action_from_lookup(found: Option<Option<String>>) -> (r: Result<String, ApiError>)
    ensures
        found is None ==> r == Err::<String, ApiError>(ApiError::FormNotFound),
        found matches Some(None) ==> r == Err::<String, ApiError>(ApiError::ActionMissing),
        found matches Some(Some(a)) ==> (r matches Ok(v) && v@ == a@),
{
    match found {
        None => Err(ApiError::FormNotFound),
        Some(None) => Err(ApiError::ActionMissing),
        Some(Some(a)) => Ok(a),
    }
}

/// The submission target of the login form in an authorization page.
pub fn extract_login_action(html: &str) -> (r: Result<String, ApiError>)
    ensures
        match (spec_login_action(html_attr_by_id(html@, LOGIN_FORM_ID@, "action"@)), r) {
            (Ok(a), Ok(v)) => v@ == a,
            (Err(e), Err(f)) => e == f,
            _ => false,
        },
{
    login_action_from_lookup(element_attr_by_id(html, LOGIN_FORM_ID, "action"))
}

} // verus!
