//! The OpenFGA backend: where a store's checks and writes go.

use vstd::prelude::*;

use crate::authz::{AccessTuple, AuthzCall, CallBody, HttpMethod};

verus! {

/// An OpenFGA store and the authorization model to check against.
#[derive(Debug, Clone, PartialEq, Eq)]
pub struct OpenFgaTarget {
    pub base_url: String,
    pub store_id: String,
    pub model_id: String,
}

/// `<base>/stores/<store>/<action>`.
pub open spec fn store_url(t: OpenFgaTarget, action: Seq<char>) -> Seq<char> {
    t.base_url@ + "/stores/"@ + t.store_id@ + "/"@ + action
}

impl OpenFgaTarget {
    pub fn new(base_url: String, store_id: String, model_id: String) -> (r: Self)
        ensures
            r.base_url == base_url,
            r.store_id == store_id,
            r.model_id == model_id,
    {
        OpenFgaTarget { base_url, store_id, model_id }
    }

    fn url(&self, action: &str) -> (r: String)
        ensures
            r@ == store_url(*self, action@),
    {
        self.base_url.clone().concat("/stores/").concat(self.store_id.as_str()).concat("/").concat(
            action,
        )
    }

    /// Checks the tuple against the model.
    pub fn check_call(&self, tuple: AccessTuple) -> (r: AuthzCall)
        ensures
            r.method == HttpMethod::Post,
            r.url@ == store_url(*self, "check"@),
            r.body == (CallBody::FgaCheck { tuple, model_id: self.model_id }),
    {
        AuthzCall {
            method: HttpMethod::Post,
            url: self.url("check"),
            body: CallBody::FgaCheck { tuple, model_id: self.model_id.clone() },
        }
    }

    /// Writes the tuple.
    pub fn write_call(&self, tuple: AccessTuple) -> (r: AuthzCall)
        ensures
            r.method == HttpMethod::Post,
            r.url@ == store_url(*self, "write"@),
            r.body == (CallBody::FgaWrite { tuple, model_id: self.model_id }),
    {
        AuthzCall {
            method: HttpMethod::Post,
            url: self.url("write"),
            body: CallBody::FgaWrite { tuple, model_id: self.model_id.clone() },
        }
    }

    /// Deletes the tuple (through the same `write` endpoint).
    pub fn delete_call(&self, tuple: AccessTuple) -> (r: AuthzCall)
        ensures
            r.method == HttpMethod::Post,
            r.url@ == store_url(*self, "write"@),
            r.body == (CallBody::FgaDelete { tuple, model_id: self.model_id }),
    {
        AuthzCall {
            method: HttpMethod::Post,
            url: self.url("write"),
            body: CallBody::FgaDelete { tuple, model_id: self.model_id.clone() },
        }
    }
}

} // verus!
