//! Querying the list of releases, optionally narrowed to a target platform.
use vstd::prelude::*;
use crate::error::UpdateError;
use crate::query::{
    api_headers, api_root, headers_accept, headers_for, list_url, list_verdict, names_url,
    list_endpoint, read_list_reply, root_of, ApiRequest, HttpOutcome,
};
use crate::release::{releases_view, Release, Soft};

verus! {

/// Settings gathered before a `ReleaseList` is made.
pub struct ReleaseListBuilder {
    pub name: Option<String>,
    pub target: Option<String>,
    pub auth_token: Option<String>,
    pub custom_url: Option<String>,
}

/// A configured query for all releases.
pub struct ReleaseList {
    pub name: Option<String>,
    pub target: Option<String>,
    pub auth_token: Option<String>,
    pub custom_url: Option<String>,
}

/// `o` holds exactly the text `s`.
pub open spec fn holds(o: Option<String>, s: Seq<char>) -> bool {
    o matches Some(v) && v@ == s
}

impl ReleaseListBuilder {
    /// Sets the name of the binary the releases are for.
    pub fn with_name(&mut self, name: &str) -> (r: &mut Self)
        ensures
            *final(self) == *final(r),
            holds(r.name, name@),
            r.target == old(self).target,
            r.auth_token == old(self).auth_token,
            r.custom_url == old(self).custom_url,
    {
        self.name = Some(name.to_owned());
        self
    }

    /// Sets the API root.
    pub fn custom_url(&mut self, url: &str) -> (r: &mut Self)
        ensures
            *final(self) == *final(r),
            holds(r.custom_url, url@),
            r.name == old(self).name,
            r.target == old(self).target,
            r.auth_token == old(self).auth_token,
    {
        self.custom_url = Some(url.to_owned());
        self
    }

    /// Sets the target platform that releases are narrowed to.
    pub fn with_target(&mut self, target: &str) -> (r: &mut Self)
        ensures
            *final(self) == *final(r),
            holds(r.target, target@),
            r.name == old(self).name,
            r.auth_token == old(self).auth_token,
            r.custom_url == old(self).custom_url,
    {
        self.target = Some(target.to_owned());
        self
    }

    /// Sets the API root; the same as `custom_url`. The root has no trailing
    /// slash, e.g. `https://updates.example.com`.
    pub fn with_url(&mut self, url: &str) -> (r: &mut Self)
        ensures
            *final(self) == *final(r),
            holds(r.custom_url, url@),
            r.name == old(self).name,
            r.target == old(self).target,
            r.auth_token == old(self).auth_token,
    {
        self.custom_url = Some(url.to_owned());
        self
    }

    /// Sets the bearer token sent with each request.
    pub fn auth_token(&mut self, auth_token: &str) -> (r: &mut Self)
        ensures
            *final(self) == *final(r),
            holds(r.auth_token, auth_token@),
            r.name == old(self).name,
            r.target == old(self).target,
            r.custom_url == old(self).custom_url,
    {
        self.auth_token = Some(auth_token.to_owned());
        self
    }

    /// Makes the `ReleaseList`; every setting is optional, so this succeeds.
    pub fn build(&self) -> (r: Result<ReleaseList, UpdateError>)
        ensures
            r matches Ok(l) && l.name == self.name && l.target == self.target
                && l.auth_token == self.auth_token && l.custom_url == self.custom_url,
    {
        Ok(ReleaseList {
            name: self.name.clone(),
            target: self.target.clone(),
            auth_token: self.auth_token.clone(),
            custom_url: self.custom_url.clone(),
        })
    }
}

impl ReleaseList {
    /// A builder with nothing set.
    pub fn configure() -> (r: ReleaseListBuilder)
        ensures
            r.name is None,
            r.target is None,
            r.auth_token is None,
            r.custom_url is None,
    {
        ReleaseListBuilder { name: None, target: None, auth_token: None, custom_url: None }
    }

    pub open spec fn target_text(&self) -> Option<Seq<char>> {
        match self.target {
            Some(t) => Some(t@),
            None => None,
        }
    }

    /// The request that lists all releases.
    pub fn request(&self) -> (r: Result<ApiRequest, UpdateError>)
        ensures
            r is Ok <==> headers_accept(self.auth_token),
            r matches Ok(q) ==> q.url@ == list_url(api_root(self.custom_url))
                && headers_for(self.auth_token, q.headers),
            r matches Err(e) ==> e is Configuration,
    {
        let headers = api_headers(&self.auth_token)?;
        let root = root_of(&self.custom_url);
        let url = list_endpoint(root.as_str());
        Ok(ApiRequest { url, headers })
    }

    /// Reads the answer to `request()`: the releases, narrowed to the target
    /// when one is set, or the failure the answer stands for.
    pub fn fetch(self, reply: HttpOutcome<Vec<Soft>>) -> (r: Result<Vec<Release>, UpdateError>)
        ensures
            r is Ok <==> list_verdict(reply, api_root(self.custom_url), self.target_text()) is Ok,
            r matches Ok(v) ==> releases_view(v@)
                == list_verdict(reply, api_root(self.custom_url), self.target_text())->Ok_0,
            r matches Err(e) ==> e.kind()
                == list_verdict(reply, api_root(self.custom_url), self.target_text())->Err_0,
            names_url(r, list_url(api_root(self.custom_url))),
    {
        let root = root_of(&self.custom_url);
        let url = list_endpoint(root.as_str());
        let target = match &self.target {
            Some(t) => Some(t.as_str()),
            None => None,
        };
        read_list_reply(reply, url.as_str(), root.as_str(), target)
    }
}

} // verus!
