//! What the generator of service bindings decides: which parts it emits, and
//! the names and paths that it writes into them.

use vstd::prelude::*;

verus! {

/// The generator's two switches.
#[derive(Clone, Copy, Debug, PartialEq, Eq, Structural)]
pub struct TwirpServiceGenerator {
    pub generate_client: bool,
    pub generate_server: bool,
}

/// A part of the bindings of one service.
#[derive(Clone, Copy, Debug, PartialEq, Eq, Structural)]
pub enum Artifact {
    /// The aliases of the runtime's request and response types.
    TypeAliases,
    /// The service's interface, one operation for each method.
    MainTrait,
    /// The client type and its factory.
    Client,
    /// The server's handler of HTTP requests.
    HttpHandler,
}

/// The path of a method on the wire: `/twirp/<package>.<service>/<method>`,
/// each name as the service description has it.
pub open spec fn twirp_path(package: Seq<char>, service: Seq<char>, method: Seq<char>) -> Seq<
    char,
> {
    "/twirp/"@ + package + "."@ + service + "/"@ + method
}

/// Whether `table` holds the wire paths of the given methods of a service, one
/// for each method and in their order.
pub open spec fn is_method_table(
    table: Seq<String>,
    package: Seq<char>,
    service: Seq<char>,
    methods: Seq<String>,
) -> bool {
    table.len() == methods.len() && forall|j: int|
        0 <= j < table.len() ==> (#[trigger] table[j])@ == twirp_path(
            package,
            service,
            methods[j]@,
        )
}

impl Default for TwirpServiceGenerator {
    /// Both switches off.
    fn default() -> (g: TwirpServiceGenerator)
        ensures
            !g.generate_client,
            !g.generate_server,
    {
        TwirpServiceGenerator { generate_client: false, generate_server: false }
    }
}

impl TwirpServiceGenerator {
    /// A generator that emits the server side only.
    pub fn new() -> (g: TwirpServiceGenerator)
        ensures
            !g.generate_client,
            g.generate_server,
    {
        TwirpServiceGenerator { generate_client: false, generate_server: true }
    }

    /// The parts that this generator emits for a service, in their order.
    pub open spec fn plan(&self) -> Seq<Artifact> {
        let base = seq![Artifact::TypeAliases, Artifact::MainTrait];
        let with_client = if self.generate_client {
            base.push(Artifact::Client)
        } else {
            base
        };
        if self.generate_server {
            with_client.push(Artifact::HttpHandler)
        } else {
            with_client
        }
    }

    /// The parts that this generator emits for a service, in their order: the
    /// aliases and the interface always, the client and the handler by the
    /// switches.
    pub fn artifacts(&self) -> (parts: Vec<Artifact>)
        ensures
            parts@ == self.plan(),
    {
        let mut parts: Vec<Artifact> = Vec::new();
        parts.push(Artifact::TypeAliases);
        parts.push(Artifact::MainTrait);
        assert(parts@ =~= seq![Artifact::TypeAliases, Artifact::MainTrait]);
        if self.generate_client {
            parts.push(Artifact::Client);
        }
        if self.generate_server {
            parts.push(Artifact::HttpHandler);
        }
        parts
    }

    /// The path of a method on the wire.
    pub fn twirp_uri(&self, package: &str, service_proto_name: &str, method_proto_name: &str) -> (uri:
        String)
        ensures
            uri@ == twirp_path(package@, service_proto_name@, method_proto_name@),
    {
        let mut uri = "/twirp/".to_owned();
        uri.append(package);
        uri.append(".");
        uri.append(service_proto_name);
        uri.append("/");
        uri.append(method_proto_name);
        uri
    }

    /// The paths of a service's methods on the wire, in the order of the
    /// methods: the table by which the server finds the handler of a request.
    pub fn method_table(
        &self,
        package: &str,
        service_proto_name: &str,
        method_proto_names: &Vec<String>,
    ) -> (table: Vec<String>)
        ensures
            is_method_table(table@, package@, service_proto_name@, method_proto_names@),
    {
        let mut table: Vec<String> = Vec::new();
        let mut i: usize = 0;
        while i < method_proto_names.len()
            invariant
                i <= method_proto_names.len(),
                table@.len() == i,
                forall|j: int|
                    0 <= j < i ==> (#[trigger] table@[j])@ == twirp_path(
                        package@,
                        service_proto_name@,
                        method_proto_names@[j]@,
                    ),
            decreases method_proto_names.len() - i,
        {
            table.push(self.twirp_uri(package, service_proto_name, method_proto_names[i].as_str()));
            i = i + 1;
        }
        table
    }

    /// The name of the client type of a service: the service's name and `Client`.
    pub fn client_name(&self, service_name: &str) -> (name: String)
        ensures
            name@ == service_name@ + "Client"@,
    {
        let mut name = service_name.to_owned();
        name.append("Client");
        name
    }
}

/// Two methods of one service have the same wire path only if they have the
/// same name.
pub proof fn lemma_path_tells_methods_apart(
    package: Seq<char>,
    service: Seq<char>,
    first: Seq<char>,
    second: Seq<char>,
)
    requires
        twirp_path(package, service, first) == twirp_path(package, service, second),
    ensures
        first == second,
{
    let prefix = "/twirp/"@ + package + "."@ + service + "/"@;
    let a = twirp_path(package, service, first);
    let b = twirp_path(package, service, second);
    assert(a.subrange(prefix.len() as int, a.len() as int) =~= first);
    assert(b.subrange(prefix.len() as int, b.len() as int) =~= second);
}

} // verus!
