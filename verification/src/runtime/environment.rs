//! The graph that a service is built from.
use vstd::prelude::*;

use crate::runtime::config::{CallSemantics, RuntimeConfig};

verus! {

/// Where a stream hands its messages.
#[derive(Clone, Copy, Debug, PartialEq, Eq, Structural)]
pub struct Link {
    pub consumer: i32,
    pub semantics: CallSemantics,
}

/// An edge of the graph.
#[derive(Clone, Copy, Debug, PartialEq, Eq, Structural)]
pub struct GraphLink {
    pub from: i32,
    pub to: i32,
    pub semantics: CallSemantics,
}

/// What the serde of a stream is made of.
#[derive(Clone, Copy, Debug, PartialEq, Eq, Structural)]
pub enum SerdeKind {
    /// The stream has a serde of its own, resolved for its values as a whole.
    Whole,
    /// The stream has a serde of its own that pairs one for keys with one for values,
    /// each resolved by itself.
    KeyValue,
    /// The stream uses the serde of another.
    Inherited,
}

/// A stream of the graph. `serde` is the node whose serde the stream uses: a
/// stream with a serde of its own refers to itself.
pub struct StreamNode {
    pub id: i32,
    pub owner: i32,
    pub name: String,
    pub serde: usize,
    pub kind: SerdeKind,
    pub link: Option<Link>,
}

pub ghost struct NodeView {
    pub id: i32,
    pub owner: i32,
    pub name: Seq<char>,
    pub serde: int,
    pub kind: SerdeKind,
    pub link: Option<Link>,
}

impl View for StreamNode {
    type V = NodeView;

    open spec fn view(&self) -> NodeView {
        NodeView {
            id: self.id,
            owner: self.owner,
            name: self.name@,
            serde: self.serde as int,
            kind: self.kind,
            link: self.link,
        }
    }
}

/// The graph of a service under construction.
pub struct RuntimeEnvironment {
    config: RuntimeConfig,
    tracing: bool,
    metrics: bool,
    nodes: Vec<StreamNode>,
    links: Vec<GraphLink>,
    registered: Vec<i32>,
    storages: Vec<i32>,
    buildables: Vec<i32>,
    consumers: Vec<i32>,
}

pub ghost struct EnvironmentView {
    pub config: RuntimeConfig,
    pub tracing: bool,
    pub metrics: bool,
    pub nodes: Seq<NodeView>,
    pub links: Seq<GraphLink>,
    pub registered: Seq<i32>,
    pub storages: Seq<i32>,
    pub buildables: Seq<i32>,
    pub consumers: Seq<i32>,
}

impl View for RuntimeEnvironment {
    type V = EnvironmentView;

    closed spec fn view(&self) -> EnvironmentView {
        EnvironmentView {
            config: self.config,
            tracing: self.tracing,
            metrics: self.metrics,
            nodes: Seq::new(self.nodes@.len(), |i: int| self.nodes@[i]@),
            links: self.links@,
            registered: self.registered@,
            storages: self.storages@,
            buildables: self.buildables@,
            consumers: self.consumers@,
        }
    }
}

impl EnvironmentView {
    /// With one more stream.
    pub open spec fn with_node(self, node: NodeView) -> EnvironmentView {
        EnvironmentView { nodes: self.nodes.push(node), ..self }
    }

    /// With one more stream that hands its messages nowhere yet. A stream without
    /// an inherited serde gets one of its own.
    pub open spec fn with_stream(
        self,
        id: i32,
        owner: i32,
        name: Seq<char>,
        serde: Option<int>,
    ) -> EnvironmentView {
        self.with_node(
            NodeView {
                id,
                owner,
                name,
                serde: match serde {
                    Some(inherited) => inherited,
                    None => self.nodes.len() as int,
                },
                kind: match serde {
                    Some(_) => SerdeKind::Inherited,
                    None => SerdeKind::Whole,
                },
                link: None,
            },
        )
    }

    /// With one more stream of values under keys that hands its messages nowhere yet.
    /// Its serde pairs one for keys with one for values.
    pub open spec fn with_keyed_stream(self, id: i32, owner: i32, name: Seq<char>) ->
        EnvironmentView {
        self.with_node(
            NodeView {
                id,
                owner,
                name,
                serde: self.nodes.len() as int,
                kind: SerdeKind::KeyValue,
                link: None,
            },
        )
    }

    /// The edge from the stream at `index` to `consumer`.
    pub open spec fn edge(self, index: int, consumer: i32) -> GraphLink {
        GraphLink {
            from: self.nodes[index].id,
            to: consumer,
            semantics: self.config.spec_call_semantics(self.nodes[index].id, consumer),
        }
    }

    /// With the stream at `index` handing its messages to `consumer`.
    pub open spec fn connected(self, index: int, consumer: i32) -> EnvironmentView {
        let edge = self.edge(index, consumer);
        EnvironmentView {
            nodes: self.nodes.update(
                index,
                NodeView {
                    link: Some(Link { consumer, semantics: edge.semantics }),
                    ..self.nodes[index]
                },
            ),
            links: self.links.push(edge),
            ..self
        }
    }

    pub open spec fn with_edge(self, from: i32, to: i32) -> EnvironmentView {
        EnvironmentView {
            links: self.links.push(
                GraphLink { from, to, semantics: self.config.spec_call_semantics(from, to) },
            ),
            ..self
        }
    }

    pub open spec fn with_registered(self, id: i32) -> EnvironmentView {
        EnvironmentView { registered: self.registered.push(id), ..self }
    }

    pub open spec fn with_storage(self, id: i32) -> EnvironmentView {
        EnvironmentView { storages: self.storages.push(id), ..self }
    }

    pub open spec fn with_buildable(self, id: i32) -> EnvironmentView {
        EnvironmentView { buildables: self.buildables.push(id), ..self }
    }

    pub open spec fn with_consumer(self, id: i32) -> EnvironmentView {
        EnvironmentView { consumers: self.consumers.push(id), ..self }
    }
}

impl RuntimeEnvironment {
    /// An empty graph under `config`.
    pub fn new(config: RuntimeConfig, tracing: bool, metrics: bool) -> (environment: Self)
        ensures
            environment@ == (EnvironmentView {
                config,
                tracing,
                metrics,
                nodes: Seq::empty(),
                links: Seq::empty(),
                registered: Seq::empty(),
                storages: Seq::empty(),
                buildables: Seq::empty(),
                consumers: Seq::empty(),
            }),
    {
        let environment = RuntimeEnvironment {
            config,
            tracing,
            metrics,
            nodes: Vec::new(),
            links: Vec::new(),
            registered: Vec::new(),
            storages: Vec::new(),
            buildables: Vec::new(),
            consumers: Vec::new(),
        };
        assert(environment@.nodes =~= Seq::empty());
        environment
    }

    pub fn runtime_config(&self) -> (config: &RuntimeConfig)
        ensures
            *config == self@.config,
    {
        &self.config
    }

    /// Whether a tracing engine is installed.
    pub fn tracing_enabled(&self) -> (enabled: bool)
        ensures
            enabled == self@.tracing,
    {
        self.tracing
    }

    /// Whether a metrics engine is installed.
    pub fn metrics_enabled(&self) -> (enabled: bool)
        ensures
            enabled == self@.metrics,
    {
        self.metrics
    }

    /// The service that the configuration belongs to.
    pub fn service_id(&self) -> (id: Option<i32>)
        ensures
            id == self@.config.service_id,
    {
        self.config.service_id
    }

    /// The name that the configuration gives stream `id`, or an empty one.
    pub fn stream_name(&self, id: i32) -> (name: String)
        ensures
            name@ == configured_name(self@.config, id),
    {
        match self.config.stream_config(id) {
            Some(config) => config.stream().name.clone(),
            None => String::new(),
        }
    }

    /// The edges of the graph, in the order in which they were made.
    pub fn graph_links(&self) -> (links: &Vec<GraphLink>)
        ensures
            links@ == self@.links,
    {
        &self.links
    }

    /// The streams that the graph knows by their ids.
    pub fn registered_streams(&self) -> (ids: &Vec<i32>)
        ensures
            ids@ == self@.registered,
    {
        &self.registered
    }

    /// Replaces the configuration.
    pub fn reload(&mut self, config: RuntimeConfig)
        ensures
            final(self)@ == (EnvironmentView { config, ..old(self)@ }),
    {
        self.config = config;
        assert(self@.nodes =~= old(self)@.nodes);
    }

    pub(crate) fn add_node(&mut self, id: i32, owner: i32, name: String, serde: Option<usize>) -> (
        index: usize)
        ensures
            index == old(self)@.nodes.len(),
            final(self)@ == old(self)@.with_stream(
                id,
                owner,
                name@,
                match serde {
                    Some(inherited) => Some(inherited as int),
                    None => None,
                },
            ),
    {
        let index: usize = self.nodes.len();
        let (serde, kind) = match serde {
            Some(inherited) => (inherited, SerdeKind::Inherited),
            None => (index, SerdeKind::Whole),
        };
        let ghost before = self@.nodes;
        self.nodes.push(StreamNode { id, owner, name, serde, kind, link: None });
        proof {
            let added = self.nodes@[index as int]@;
            assert(self@.nodes =~= before.push(added));
        }
        index
    }

    pub(crate) fn add_keyed_node(&mut self, id: i32, owner: i32, name: String) -> (index: usize)
        ensures
            index == old(self)@.nodes.len(),
            final(self)@ == old(self)@.with_keyed_stream(id, owner, name@),
    {
        let index: usize = self.nodes.len();
        let ghost before = self@.nodes;
        let kind = SerdeKind::KeyValue;
        self.nodes.push(StreamNode { id, owner, name, serde: index, kind, link: None });
        proof {
            let added = self.nodes@[index as int]@;
            assert(self@.nodes =~= before.push(added));
        }
        index
    }

    pub(crate) fn node(&self, index: usize) -> (node: &StreamNode)
        requires
            index < self@.nodes.len(),
        ensures
            node@ == self@.nodes[index as int],
    {
        &self.nodes[index]
    }

    pub(crate) fn connect(&mut self, index: usize, consumer: i32)
        requires
            index < old(self)@.nodes.len(),
        ensures
            final(self)@ == old(self)@.connected(index as int, consumer),
    {
        let from: i32 = self.nodes[index].id;
        let semantics = self.config.call_semantics(from, consumer);
        let ghost before = self@;
        let mut node = StreamNode {
            id: from,
            owner: self.nodes[index].owner,
            name: self.nodes[index].name.clone(),
            serde: self.nodes[index].serde,
            kind: self.nodes[index].kind,
            link: Some(Link { consumer, semantics }),
        };
        self.nodes.set_and_swap(index, &mut node);
        self.links.push(GraphLink { from, to: consumer, semantics });
        assert(self@.nodes =~= before.connected(index as int, consumer).nodes);
    }

    pub(crate) fn register_graph_link(&mut self, from: i32, to: i32)
        ensures
            final(self)@ == old(self)@.with_edge(from, to),
    {
        let semantics = self.config.call_semantics(from, to);
        self.links.push(GraphLink { from, to, semantics });
        assert(self@.nodes =~= old(self)@.nodes);
    }

    pub(crate) fn register_runtime_stream(&mut self, id: i32)
        ensures
            final(self)@ == old(self)@.with_registered(id),
    {
        self.registered.push(id);
        assert(self@.nodes =~= old(self)@.nodes);
    }

    pub(crate) fn register_storage(&mut self, id: i32)
        ensures
            final(self)@ == old(self)@.with_storage(id),
    {
        self.storages.push(id);
        assert(self@.nodes =~= old(self)@.nodes);
    }

    pub(crate) fn register_runtime_buildable(&mut self, id: i32)
        ensures
            final(self)@ == old(self)@.with_buildable(id),
    {
        self.buildables.push(id);
        assert(self@.nodes =~= old(self)@.nodes);
    }

    pub(crate) fn register_endpoint_consumer(&mut self, id: i32)
        ensures
            final(self)@ == old(self)@.with_consumer(id),
    {
        self.consumers.push(id);
        assert(self@.nodes =~= old(self)@.nodes);
    }
}

/// The name that `config` gives stream `id`, or an empty one.
pub open spec fn configured_name(config: RuntimeConfig, id: i32) -> Seq<char> {
    match config.spec_stream_config(id) {
        Some(found) => found.spec_stream().name@,
        None => Seq::empty(),
    }
}

/// A new stream comes last in the graph, without a consumer, under its id, owner and name; it
/// uses the serde that it inherits, or else is the one that its own serde belongs to. What was
/// in the graph stays as it was.
pub proof fn law_streams_are_added_last(
    graph: EnvironmentView,
    id: i32,
    owner: i32,
    name: Seq<char>,
    serde: Option<int>,
)
    ensures
        ({
            let grown = graph.with_stream(id, owner, name, serde);
            let keyed = graph.with_keyed_stream(id, owner, name);
            let count = graph.nodes.len() as int;
            &&& grown.nodes.len() == count + 1
            &&& grown.nodes.drop_last() == graph.nodes
            &&& grown.nodes[count].id == id
            &&& grown.nodes[count].owner == owner
            &&& grown.nodes[count].name == name
            &&& grown.nodes[count].link is None
            &&& grown.nodes[count].serde == (if serde is Some {
                serde->0
            } else {
                count
            })
            &&& grown.nodes[count].kind == SerdeKind::Inherited <==> serde is Some
            &&& grown.nodes[count].kind == SerdeKind::Whole <==> serde is None
            &&& keyed.nodes.drop_last() == graph.nodes
            &&& keyed.nodes.len() == count + 1
            &&& keyed.nodes[count].id == id
            &&& keyed.nodes[count].owner == owner
            &&& keyed.nodes[count].name == name
            &&& keyed.nodes[count].link is None
            &&& keyed.nodes[count].serde == count
            &&& keyed.nodes[count].kind == SerdeKind::KeyValue
            &&& same_but_nodes(grown, graph)
            &&& same_but_nodes(keyed, graph)
        }),
{
    let grown = graph.with_stream(id, owner, name, serde);
    let keyed = graph.with_keyed_stream(id, owner, name);
    assert(grown.nodes.drop_last() =~= graph.nodes);
    assert(keyed.nodes.drop_last() =~= graph.nodes);
}

/// Equal in everything but the streams.
pub open spec fn same_but_nodes(a: EnvironmentView, b: EnvironmentView) -> bool {
    &&& a.config == b.config
    &&& a.tracing == b.tracing
    &&& a.metrics == b.metrics
    &&& a.links == b.links
    &&& a.registered == b.registered
    &&& a.storages == b.storages
    &&& a.buildables == b.buildables
    &&& a.consumers == b.consumers
}

/// Connecting a stream gives it its consumer, with the semantics that the configuration gives
/// to the two, and enters the edge between them; the other streams and edges stay as they
/// were.
pub proof fn law_connecting_changes_one_stream(graph: EnvironmentView, index: int, consumer: i32)
    requires
        0 <= index < graph.nodes.len(),
    ensures
        ({
            let after = graph.connected(index, consumer);
            let node = graph.nodes[index];
            let semantics = graph.config.spec_call_semantics(node.id, consumer);
            &&& after.nodes.len() == graph.nodes.len()
            &&& after.nodes[index].link == Some(Link { consumer, semantics })
            &&& after.nodes[index].id == node.id
            &&& after.nodes[index].owner == node.owner
            &&& after.nodes[index].name == node.name
            &&& after.nodes[index].serde == node.serde
            &&& after.nodes[index].kind == node.kind
            &&& forall|i: int|
                0 <= i < graph.nodes.len() && i != index ==> #[trigger] after.nodes[i]
                    == graph.nodes[i]
            &&& after.links.len() == graph.links.len() + 1
            &&& after.links.drop_last() == graph.links
            &&& after.links.last() == (GraphLink { from: node.id, to: consumer, semantics })
            &&& after.config == graph.config
            &&& after.tracing == graph.tracing
            &&& after.metrics == graph.metrics
            &&& after.registered == graph.registered
            &&& after.storages == graph.storages
            &&& after.buildables == graph.buildables
            &&& after.consumers == graph.consumers
        }),
{
    assert(graph.connected(index, consumer).links.drop_last() =~= graph.links);
}

/// Registering something enters it last among its kind and changes nothing else; an edge that
/// is entered by itself has the semantics that the configuration gives to its ends.
pub proof fn law_registrations_are_kept_apart(graph: EnvironmentView, id: i32, to: i32)
    ensures
        graph.with_storage(id).storages == graph.storages.push(id),
        graph.with_storage(id).buildables == graph.buildables,
        graph.with_storage(id).consumers == graph.consumers,
        graph.with_storage(id).registered == graph.registered,
        graph.with_storage(id).nodes == graph.nodes,
        graph.with_storage(id).links == graph.links,
        graph.with_buildable(id).buildables == graph.buildables.push(id),
        graph.with_buildable(id).storages == graph.storages,
        graph.with_buildable(id).consumers == graph.consumers,
        graph.with_buildable(id).nodes == graph.nodes,
        graph.with_consumer(id).consumers == graph.consumers.push(id),
        graph.with_consumer(id).storages == graph.storages,
        graph.with_consumer(id).buildables == graph.buildables,
        graph.with_consumer(id).nodes == graph.nodes,
        graph.with_registered(id).registered == graph.registered.push(id),
        graph.with_registered(id).nodes == graph.nodes,
        graph.with_edge(id, to).links == graph.links.push(
            (GraphLink { from: id, to, semantics: graph.config.spec_call_semantics(id, to) }),
        ),
        graph.with_edge(id, to).nodes == graph.nodes,
        graph.with_storage(id).config == graph.config,
        graph.with_buildable(id).config == graph.config,
        graph.with_consumer(id).config == graph.config,
        graph.with_registered(id).config == graph.config,
        graph.with_edge(id, to).config == graph.config,
{
}

/// A stream goes by the name that its configuration gives it, and by none where there is no
/// configuration for it.
pub proof fn law_streams_are_named_by_their_configuration(config: RuntimeConfig, id: i32)
    ensures
        config.spec_stream_config(id) matches Some(found) ==> configured_name(config, id)
            == found.spec_stream().name@,
        config.spec_stream_config(id) is None ==> configured_name(config, id).len() == 0,
{
}

} // verus!
