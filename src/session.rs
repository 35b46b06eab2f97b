//! The backend and frontend chosen for a session.
use vstd::prelude::*;

verus! {

/// The session's choice of backend and frontend, made at startup.
pub struct SessionConfig {
    pub backend: String,
    pub frontend: String,
}

/// The session's choice as reported to the frontend.
pub struct SessionConfigResponse {
    backend: String,
    frontend: String,
}

impl SessionConfigResponse {
    pub closed spec fn backend_view(&self) -> Seq<char> {
        self.backend@
    }

    pub closed spec fn frontend_view(&self) -> Seq<char> {
        self.frontend@
    }

    pub fn backend(&self) -> (r: &String)
        ensures
            r@ == self.backend_view(),
    {
        &self.backend
    }

    pub fn frontend(&self) -> (r: &String)
        ensures
            r@ == self.frontend_view(),
    {
        &self.frontend
    }
}

/// Reports the session's configuration; this never fails.
pub fn get_session_config(config: &SessionConfig) -> (r: Result<SessionConfigResponse, String>)
    ensures
        r is Ok,
        r->Ok_0.backend_view() == config.backend@,
        r->Ok_0.frontend_view() == config.frontend@,
{
    Ok(SessionConfigResponse { backend: config.backend.clone(), frontend: config.frontend.clone() })
}

} // verus!
