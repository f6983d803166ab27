use vstd::prelude::*;
use crate::client::{is_signed_get, query_view, Csfd};
use crate::http::Request;
use crate::text::{decimal, decimal_string};
use crate::token::{opt_token_view, ApiError};
use crate::types::{joined_names, HomeData, ParamKey, Params};

verus! {

/// A request for the home feed, built step by step.
#[derive(Clone, Debug)]
pub struct HomeRequest {
    inner: Csfd,
    params: Params,
}

impl HomeRequest {
    pub closed spec fn spec_client(&self) -> Csfd {
        self.inner
    }

    pub closed spec fn spec_params(&self) -> Params {
        self.params
    }

    /// A request of the home feed through `csfd`, with no parameters yet.
    pub fn new(csfd: &Csfd) -> (r: HomeRequest)
        ensures
            r.spec_client().spec_consumer().key@ == csfd.spec_consumer().key@,
            r.spec_client().spec_consumer().secret@ == csfd.spec_consumer().secret@,
            opt_token_view(r.spec_client().spec_token()) == opt_token_view(csfd.spec_token()),
            r.spec_params().wf(),
            r.spec_params()@.len() == 0,
    {
        HomeRequest { inner: csfd.clone_client(), params: Params::new() }
    }

    /// Sets the sections of the feed to return.
    pub fn data(self, data: HomeData) -> (r: HomeRequest)
        requires
            self.spec_params().wf(),
        ensures
            r.spec_client() == self.spec_client(),
            r.spec_params().wf(),
            r.spec_params().spec_get(ParamKey::Data) == Some(joined_names(data@)),
            forall|k: ParamKey| k != ParamKey::Data ==> r.spec_params().spec_get(k) == self.spec_params().spec_get(k),
    {
        let mut params = self.params;
        params.insert(ParamKey::Data, data.to_string());
        HomeRequest { inner: self.inner, params }
    }

    /// Sets the largest number of entries per section.
    pub fn limit(self, limit: u32) -> (r: HomeRequest)
        requires
            self.spec_params().wf(),
        ensures
            r.spec_client() == self.spec_client(),
            r.spec_params().wf(),
            r.spec_params().spec_get(ParamKey::Limit) == Some(decimal(limit as nat)),
            forall|k: ParamKey| k != ParamKey::Limit ==> r.spec_params().spec_get(k) == self.spec_params().spec_get(k),
    {
        let mut params = self.params;
        params.insert(ParamKey::Limit, decimal_string(limit));
        HomeRequest { inner: self.inner, params }
    }

    /// Sets the largest number of creator profile visits.
    pub fn creator_profile_visits_limit(self, limit: u32) -> (r: HomeRequest)
        requires
            self.spec_params().wf(),
        ensures
            r.spec_client() == self.spec_client(),
            r.spec_params().wf(),
            r.spec_params().spec_get(ParamKey::CreatorProfileVisitsLimit) == Some(decimal(limit as nat)),
            forall|k: ParamKey|
                k != ParamKey::CreatorProfileVisitsLimit ==> r.spec_params().spec_get(k) == self.spec_params().spec_get(k),
    {
        let mut params = self.params;
        params.insert(ParamKey::CreatorProfileVisitsLimit, decimal_string(limit));
        HomeRequest { inner: self.inner, params }
    }

    /// The signed request to send.
    pub fn request(&self) -> (r: Result<Request, ApiError>)
        requires
            self.spec_params().wf(),
        ensures
            is_signed_get(self.spec_client().spec_consumer(), self.spec_client().spec_token(), r, "home"@, query_view(self.spec_params()@)),
    {
        self.inner.get("home", Some(self.params.clone_params()))
    }
}

/// A request for the signed-in user.
#[derive(Clone, Debug)]
pub struct IdentityRequest {
    inner: Csfd,
}

impl IdentityRequest {
    pub closed spec fn spec_client(&self) -> Csfd {
        self.inner
    }

    /// A request of the signed-in user through `csfd`.
    pub fn new(csfd: &Csfd) -> (r: IdentityRequest)
        ensures
            r.spec_client().spec_consumer().key@ == csfd.spec_consumer().key@,
            r.spec_client().spec_consumer().secret@ == csfd.spec_consumer().secret@,
            opt_token_view(r.spec_client().spec_token()) == opt_token_view(csfd.spec_token()),
    {
        IdentityRequest { inner: csfd.clone_client() }
    }

    /// The signed request to send.
    pub fn request(&self) -> (r: Result<Request, ApiError>)
        ensures
            is_signed_get(self.spec_client().spec_consumer(), self.spec_client().spec_token(), r, "identity"@, Seq::empty()),
    {
        self.inner.identity()
    }
}

} // verus!
