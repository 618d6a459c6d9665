//! The graph of an application: the nodes it declares and the connections
//! between them.

use crate::pkg_info::{IdentityView, PackageIdentity};
use vstd::prelude::*;

verus! {

/// What a graph node stands for.
pub struct GraphNodeView {
    pub app_uri: Option<Seq<char>>,
    pub identity: IdentityView,
    pub addon: Seq<char>,
    pub property: Option<Seq<char>>,
}

/// One use of a package in a graph. The node has a kind and a name of its
/// own (`identity`) and names the addon that it instantiates; the two names
/// are independent. Whether the addon is installed is looked up under the
/// node's application, its kind and the addon's name.
#[derive(Clone, Debug, PartialEq, Eq)]
pub struct GraphNode {
    /// The URI of the application that the node belongs to; `None` where
    /// the graph's description names no application for it.
    pub app_uri: Option<String>,
    pub identity: PackageIdentity,
    pub addon: String,
    /// The node's own property overrides, as written in the graph's
    /// description.
    pub property: Option<String>,
}

impl View for GraphNode {
    type V = GraphNodeView;

    open spec fn view(&self) -> GraphNodeView {
        GraphNodeView {
            app_uri: self.app_uri.deep_view(),
            identity: self.identity@,
            addon: self.addon@,
            property: self.property.deep_view(),
        }
    }
}

/// What a connection stands for.
pub struct ConnectionView {
    pub source: IdentityView,
    pub destination: IdentityView,
}

/// A connection from one node of a graph to another, each named by its
/// identity.
#[derive(Clone, Debug, PartialEq, Eq)]
pub struct GraphConnection {
    pub source: PackageIdentity,
    pub destination: PackageIdentity,
}

impl DeepView for GraphNode {
    type V = GraphNodeView;

    open spec fn deep_view(&self) -> GraphNodeView {
        self@
    }
}

impl View for GraphConnection {
    type V = ConnectionView;

    open spec fn view(&self) -> ConnectionView {
        ConnectionView { source: self.source@, destination: self.destination@ }
    }
}

impl DeepView for GraphConnection {
    type V = ConnectionView;

    open spec fn deep_view(&self) -> ConnectionView {
        self@
    }
}

/// What a graph stands for: its nodes and its connections, each in the
/// order of declaration.
pub struct GraphView {
    pub nodes: Seq<GraphNodeView>,
    pub connections: Seq<ConnectionView>,
}

/// The runtime topology of one application. The order of the nodes is the
/// order in which they were declared, and findings are reported in it. The
/// same addon may be instantiated by several nodes.
#[derive(Clone, Debug, PartialEq, Eq)]
pub struct Graph {
    pub nodes: Vec<GraphNode>,
    pub connections: Vec<GraphConnection>,
}

impl View for Graph {
    type V = GraphView;

    open spec fn view(&self) -> GraphView {
        GraphView {
            nodes: self.nodes.deep_view(),
            connections: self.connections.deep_view(),
        }
    }
}

} // verus!
