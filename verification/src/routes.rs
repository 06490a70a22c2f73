use vstd::prelude::*;

verus! {

/// The gRPC service for accounts. It holds no state: every call takes what
/// it needs from the request.
pub struct UserRoute {}

impl UserRoute {
    pub fn new() -> (r: Self)
        ensures
            r == (UserRoute {}),
    {
        UserRoute {}
    }
}

/// The gRPC API service. It holds no state: every call takes what it needs
/// from the request.
pub struct GrpcRoute {}

impl GrpcRoute {
    pub fn new() -> (r: Self)
        ensures
            r == (GrpcRoute {}),
    {
        GrpcRoute {}
    }
}

} // verus!
