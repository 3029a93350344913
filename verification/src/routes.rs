//! Which visualizer method a request addresses, on the gRPC interface and on
//! its HTTP mirror.

use vstd::prelude::*;

verus! {

/// A method of the visualizer service.
#[derive(Debug, Clone, Copy, PartialEq, Eq, Structural)]
pub enum VisualizerMethod {
    VisualizeContracts,
    VisualizeStorage,
}

/// The gRPC path of a method.
pub open spec fn grpc_path(method: VisualizerMethod) -> Seq<char> {
    match method {
        VisualizerMethod::VisualizeContracts => "/blockscout.visualizer.v1.SolidityVisualizer/VisualizeContracts"@,
        VisualizerMethod::VisualizeStorage => "/blockscout.visualizer.v1.SolidityVisualizer/VisualizeStorage"@,
    }
}

/// The HTTP route of a method.
pub open spec fn http_route(method: VisualizerMethod) -> Seq<char> {
    match method {
        VisualizerMethod::VisualizeContracts => "/v1/solidity:visualizeContracts"@,
        VisualizerMethod::VisualizeStorage => "/v1/solidity:VisualizeStorage"@,
    }
}

/// The method a gRPC request path addresses: the one whose path it is, if
/// any.
pub open spec fn route_spec(path: Seq<char>) -> Option<VisualizerMethod> {
    if path == grpc_path(VisualizerMethod::VisualizeContracts) {
        Some(VisualizerMethod::VisualizeContracts)
    } else if path == grpc_path(VisualizerMethod::VisualizeStorage) {
        Some(VisualizerMethod::VisualizeStorage)
    } else {
        None
    }
}

/// Whether two texts are equal.
fn same_text(a: &str, b: &str) -> (r: bool)
    ensures
        r == (a@ == b@),
{
    a.to_owned() == b.to_owned()
}

/// The method a gRPC request path addresses, if any; a path that addresses
/// none is answered as unimplemented.
pub fn route_grpc_path(path: &str) -> (r: Option<VisualizerMethod>)
    ensures
        r == route_spec(path@),
{
    if same_text(path, "/blockscout.visualizer.v1.SolidityVisualizer/VisualizeContracts") {
        Some(VisualizerMethod::VisualizeContracts)
    } else if same_text(path, "/blockscout.visualizer.v1.SolidityVisualizer/VisualizeStorage") {
        Some(VisualizerMethod::VisualizeStorage)
    } else {
        None
    }
}

/// The gRPC path a client calls a method at.
pub fn grpc_path_of(method: VisualizerMethod) -> (r: &'static str)
    ensures
        r@ == grpc_path(method),
{
    match method {
        VisualizerMethod::VisualizeContracts => "/blockscout.visualizer.v1.SolidityVisualizer/VisualizeContracts",
        VisualizerMethod::VisualizeStorage => "/blockscout.visualizer.v1.SolidityVisualizer/VisualizeStorage",
    }
}

/// The HTTP route of a method.
pub fn route_of(method: VisualizerMethod) -> (r: &'static str)
    ensures
        r@ == http_route(method),
{
    match method {
        VisualizerMethod::VisualizeContracts => "/v1/solidity:visualizeContracts",
        VisualizerMethod::VisualizeStorage => "/v1/solidity:VisualizeStorage",
    }
}

/// The reply to a gRPC request for no known method: HTTP status 200 with
/// gRPC status 12 (unimplemented) and the gRPC content type.
#[derive(Debug, Clone, PartialEq, Eq)]
pub struct UnimplementedReply {
    pub http_status: u16,
    pub grpc_status: String,
    pub content_type: String,
}

/// The reply to a gRPC request for no known method.
pub fn unimplemented_reply() -> (r: UnimplementedReply)
    ensures
        r.http_status == 200,
        r.grpc_status@ == "12"@,
        r.content_type@ == "application/grpc"@,
{
    UnimplementedReply {
        http_status: 200,
        grpc_status: String::from_str("12"),
        content_type: String::from_str("application/grpc"),
    }
}

/// The gRPC path of each method is routed to that method, and a path that
/// is routed somewhere is the path of the method it is routed to.
pub proof fn lemma_route_round_trip(method: VisualizerMethod, path: Seq<char>)
    ensures
        route_spec(grpc_path(method)) == Some(method),
        route_spec(path) matches Some(m) ==> path == grpc_path(m),
{
    reveal_strlit("/blockscout.visualizer.v1.SolidityVisualizer/VisualizeContracts");
    reveal_strlit("/blockscout.visualizer.v1.SolidityVisualizer/VisualizeStorage");
    assert(grpc_path(VisualizerMethod::VisualizeContracts).len() != grpc_path(
        VisualizerMethod::VisualizeStorage,
    ).len());
}

/// The methods' gRPC paths and HTTP routes, as the interface names them.
pub proof fn lemma_method_paths()
    ensures
        grpc_path(VisualizerMethod::VisualizeContracts)
            == "/blockscout.visualizer.v1.SolidityVisualizer/VisualizeContracts"@,
        grpc_path(VisualizerMethod::VisualizeStorage)
            == "/blockscout.visualizer.v1.SolidityVisualizer/VisualizeStorage"@,
        http_route(VisualizerMethod::VisualizeContracts) == "/v1/solidity:visualizeContracts"@,
        http_route(VisualizerMethod::VisualizeStorage) == "/v1/solidity:VisualizeStorage"@,
{
}

} // verus!
