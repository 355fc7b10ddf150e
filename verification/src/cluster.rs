//! Clusters: groups of registers and further clusters, single or in arrays.

use crate::dim::{
    dim_labels, lemma_array_labels, spec_array_info, RegisterClusterArrayInfo,
    RegisterClusterArrayInfoView,
};
use crate::error::{outcome, SVDError, SVDErrorKind, SVDErrorKindView, SVDErrorView};
use crate::parse::{
    child_number, child_number_opt, child_text, child_text_opt, get_child_u32, get_child_u32_opt,
};
use crate::register::{lemma_register_array, spec_register, Register, RegisterView};
use crate::svd::access::{child_access_opt, Access};
use crate::text::{contains_pair, has_pair, radix_u32, str_eq};
use crate::xml::{lemma_children_view, Node, NodeView};
use vstd::prelude::*;
use vstd::string::*;

verus! {

/// What stands at one place of a register container: a register or a
/// cluster.
#[derive(Debug, PartialEq, Eq)]
pub enum RegisterCluster {
    Register(Register),
    Cluster(Cluster),
}

/// A cluster, or an array of clusters with the same properties.
#[derive(Debug, PartialEq, Eq)]
pub enum Cluster {
    Single(ClusterInfo),
    Array(ClusterInfo, RegisterClusterArrayInfo),
}

/// The properties of a cluster, with the registers and clusters that it
/// groups in document order.
#[derive(Debug, PartialEq, Eq)]
pub struct ClusterInfo {
    pub name: String,
    pub description: String,
    pub header_struct_name: Option<String>,
    pub address_offset: u32,
    pub size: Option<u32>,
    pub access: Option<Access>,
    pub reset_value: Option<u32>,
    pub reset_mask: Option<u32>,
    pub children: Vec<RegisterCluster>,
}

/// The mathematical model of [`RegisterCluster`].
pub enum RegisterClusterView {
    Register(RegisterView),
    Cluster(ClusterView),
}

/// The mathematical model of [`Cluster`].
pub enum ClusterView {
    Single(ClusterInfoView),
    Array(ClusterInfoView, RegisterClusterArrayInfoView),
}

/// The mathematical model of [`ClusterInfo`].
pub struct ClusterInfoView {
    pub name: Seq<char>,
    pub description: Seq<char>,
    pub header_struct_name: Option<Seq<char>>,
    pub address_offset: u32,
    pub size: Option<u32>,
    pub access: Option<Access>,
    pub reset_value: Option<u32>,
    pub reset_mask: Option<u32>,
    pub children: Seq<RegisterClusterView>,
}

/// The mathematical model of a register or cluster.
pub open spec fn register_cluster_view(rc: RegisterCluster) -> RegisterClusterView
    decreases rc,
{
    match rc {
        RegisterCluster::Register(r) => RegisterClusterView::Register(r.deep_view()),
        RegisterCluster::Cluster(c) => RegisterClusterView::Cluster(cluster_view(c)),
    }
}

/// The mathematical model of a cluster.
pub open spec fn cluster_view(c: Cluster) -> ClusterView
    decreases c,
{
    match c {
        Cluster::Single(info) => ClusterView::Single(cluster_info_view(info)),
        Cluster::Array(info, array) => ClusterView::Array(
            cluster_info_view(info),
            array.deep_view(),
        ),
    }
}

/// The mathematical model of the properties of a cluster.
pub open spec fn cluster_info_view(info: ClusterInfo) -> ClusterInfoView
    decreases info,
{
    ClusterInfoView {
        name: info.name@,
        description: info.description@,
        header_struct_name: info.header_struct_name.deep_view(),
        address_offset: info.address_offset,
        size: info.size,
        access: info.access,
        reset_value: info.reset_value,
        reset_mask: info.reset_mask,
        children: Seq::new(
            info.children.len() as nat,
            |i: int|
                if 0 <= i < info.children.len() {
                    register_cluster_view(info.children[i])
                } else {
                    arbitrary()
                },
        ),
    }
}

impl DeepView for RegisterCluster {
    type V = RegisterClusterView;

    open spec fn deep_view(&self) -> RegisterClusterView {
        register_cluster_view(*self)
    }
}

impl View for RegisterCluster {
    type V = RegisterClusterView;

    open spec fn view(&self) -> RegisterClusterView {
        register_cluster_view(*self)
    }
}

impl DeepView for Cluster {
    type V = ClusterView;

    open spec fn deep_view(&self) -> ClusterView {
        cluster_view(*self)
    }
}

impl View for Cluster {
    type V = ClusterView;

    open spec fn view(&self) -> ClusterView {
        cluster_view(*self)
    }
}

impl DeepView for ClusterInfo {
    type V = ClusterInfoView;

    open spec fn deep_view(&self) -> ClusterInfoView {
        cluster_info_view(*self)
    }
}

impl View for ClusterInfo {
    type V = ClusterInfoView;

    open spec fn view(&self) -> ClusterInfoView {
        cluster_info_view(*self)
    }
}

/// Every array in or below `rc` is well-formed.
pub open spec fn register_cluster_wf(rc: RegisterClusterView) -> bool
    decreases rc,
{
    match rc {
        RegisterClusterView::Register(r) => r.wf(),
        RegisterClusterView::Cluster(c) => cluster_wf(c),
    }
}

/// The name of an array holds the placeholder `%s`, its labels, where
/// given, are as many as its elements, and every array below the cluster is
/// well-formed too.
pub open spec fn cluster_wf(c: ClusterView) -> bool
    decreases c,
{
    match c {
        ClusterView::Single(info) => cluster_info_wf(info),
        ClusterView::Array(info, array) => has_pair(info.name, '%', 's') && array.wf()
            && cluster_info_wf(info),
    }
}

/// Every array among or below the children is well-formed.
pub open spec fn cluster_info_wf(info: ClusterInfoView) -> bool
    decreases info,
{
    forall|i: int|
        0 <= i < info.children.len() ==> register_cluster_wf(#[trigger] info.children[i])
}

impl RegisterClusterView {
    /// Every array in or below this place is well-formed.
    pub open spec fn wf(self) -> bool {
        register_cluster_wf(self)
    }
}

impl ClusterView {
    /// The properties, whether of a single cluster or of an array.
    pub open spec fn info(self) -> ClusterInfoView {
        match self {
            ClusterView::Single(info) => info,
            ClusterView::Array(info, _) => info,
        }
    }

    /// This cluster and every array below it are well-formed.
    pub open spec fn wf(self) -> bool {
        cluster_wf(self)
    }
}

/// Every one of a list of registers and clusters is well-formed.
pub open spec fn all_wf(list: Seq<RegisterClusterView>) -> bool {
    forall|i: int| 0 <= i < list.len() ==> register_cluster_wf(#[trigger] list[i])
}

/// The view of a list of registers and clusters lists their views, one for
/// one.
pub proof fn lemma_register_clusters_view(list: Vec<RegisterCluster>, info: ClusterInfo)
    requires
        info.children == list,
    ensures
        info@.children == list.deep_view(),
{
    assert(info@.children =~= list.deep_view());
}

/// Copies a list of registers and clusters.
pub fn clone_register_clusters(list: &Vec<RegisterCluster>) -> (r: Vec<RegisterCluster>)
    ensures
        r.deep_view() == list.deep_view(),
    decreases list,
{
    let mut copy: Vec<RegisterCluster> = Vec::new();
    let mut i: usize = 0;
    while i < list.len()
        invariant
            i <= list.len(),
            copy@.len() == i,
            forall|k: int| 0 <= k < i ==> copy@[k]@ == list@[k]@,
        decreases list.len() - i,
    {
        let c = list[i].clone();
        copy.push(c);
        i += 1;
    }
    assert(copy.deep_view() =~= list.deep_view());
    copy
}

impl Clone for RegisterCluster {
    fn clone(&self) -> (r: RegisterCluster)
        ensures
            r@ == self@,
        decreases self,
    {
        match self {
            RegisterCluster::Register(reg) => RegisterCluster::Register(reg.clone()),
            RegisterCluster::Cluster(c) => RegisterCluster::Cluster(c.clone()),
        }
    }
}

impl Clone for Cluster {
    fn clone(&self) -> (r: Cluster)
        ensures
            r@ == self@,
        decreases self,
    {
        match self {
            Cluster::Single(info) => Cluster::Single(info.clone()),
            Cluster::Array(info, array) => Cluster::Array(info.clone(), array.clone()),
        }
    }
}

impl Clone for ClusterInfo {
    fn clone(&self) -> (r: ClusterInfo)
        ensures
            r@ == self@,
        decreases self,
    {
        let children = clone_register_clusters(&self.children);
        let r = ClusterInfo {
            name: self.name.clone(),
            description: self.description.clone(),
            header_struct_name: self.header_struct_name.clone(),
            address_offset: self.address_offset,
            size: self.size,
            access: self.access,
            reset_value: self.reset_value,
            reset_mask: self.reset_mask,
            children,
        };
        proof {
            lemma_register_clusters_view(self.children, *self);
            lemma_register_clusters_view(children, r);
        }
        r
    }
}

/// Whether a node is tagged as a register or as a cluster.
pub open spec fn is_register_or_cluster(c: NodeView) -> bool {
    c.name == "register"@ || c.name == "cluster"@
}

/// What a child of a register container describes, by its tag: a register,
/// a cluster, or nothing that belongs there.
pub open spec fn spec_register_cluster(n: NodeView) -> Result<RegisterClusterView, SVDErrorView>
    decreases n, 3int,
{
    if n.name == "register"@ {
        match spec_register(n) {
            Ok(r) => Ok(RegisterClusterView::Register(r)),
            Err(e) => Err(e),
        }
    } else if n.name == "cluster"@ {
        match spec_cluster(n) {
            Ok(c) => Ok(RegisterClusterView::Cluster(c)),
            Err(e) => Err(e),
        }
    } else {
        Err(SVDErrorView::new(SVDErrorKindView::InvalidRegisterCluster(n, n.name)))
    }
}

/// What the given children describe, in document order. Where `all` holds
/// each of them must be a register or a cluster; where it does not, those
/// with another tag are passed over.
pub open spec fn register_clusters(children: Seq<NodeView>, all: bool) -> Result<
    Seq<RegisterClusterView>,
    SVDErrorView,
>
    decreases children, 0int,
{
    if children.len() == 0 {
        Ok(Seq::empty())
    } else {
        match register_clusters(children.drop_last(), all) {
            Err(e) => Err(e),
            Ok(done) => if !all && !is_register_or_cluster(children.last()) {
                Ok(done)
            } else {
                match spec_register_cluster(children.last()) {
                    Ok(v) => Ok(done.push(v)),
                    Err(e) => Err(e),
                }
            },
        }
    }
}

/// The properties of the cluster that a node describes, with the registers
/// and clusters among its children.
pub open spec fn spec_cluster_info(n: NodeView) -> Result<ClusterInfoView, SVDErrorView>
    decreases n, 1int,
{
    match child_text(n, "name"@) {
        Err(e) => Err(e),
        Ok(name) => match child_text(n, "description"@) {
            Err(e) => Err(e),
            Ok(description) => match child_text_opt(n, "headerStructName"@) {
                Err(e) => Err(e),
                Ok(header_struct_name) => match child_number(n, "addressOffset"@) {
                    Err(e) => Err(e),
                    Ok(address_offset) => match child_number_opt(n, "size"@) {
                        Err(e) => Err(e),
                        Ok(size) => match child_access_opt(n) {
                            Err(e) => Err(e),
                            Ok(access) => match child_number_opt(n, "resetValue"@) {
                                Err(e) => Err(e),
                                Ok(reset_value) => match child_number_opt(n, "resetMask"@) {
                                    Err(e) => Err(e),
                                    Ok(reset_mask) => match register_clusters(n.children, false) {
                                        Err(e) => Err(e),
                                        Ok(children) => Ok(
                                            ClusterInfoView {
                                                name,
                                                description,
                                                header_struct_name,
                                                address_offset,
                                                size,
                                                access,
                                                reset_value,
                                                reset_mask,
                                                children,
                                            },
                                        ),
                                    },
                                },
                            },
                        },
                    },
                },
            },
        },
    }
}

/// The cluster that a `cluster` node describes: an array where the node has
/// a child `dimIncrement`, a single cluster where it has none. An array
/// whose name lacks the placeholder `%s` is refused.
pub open spec fn spec_cluster(n: NodeView) -> Result<ClusterView, SVDErrorView>
    decreases n, 2int,
{
    if n.name != "cluster"@ {
        Err(SVDErrorView::new(SVDErrorKindView::NotExpectedTag(n, "cluster"@)))
    } else {
        match spec_cluster_info(n) {
            Err(e) => Err(e),
            Ok(info) => if n.child("dimIncrement"@) is Some {
                match spec_array_info(n) {
                    Err(e) => Err(e),
                    Ok(array) => if has_pair(info.name, '%', 's') {
                        Ok(ClusterView::Array(info, array))
                    } else {
                        Err(SVDErrorView::new(SVDErrorKindView::MissingPlaceholder(info.name)))
                    },
                }
            } else {
                Ok(ClusterView::Single(info))
            },
        }
    }
}

/// One more child extends what the children before it describe.
pub proof fn lemma_register_clusters_step(children: Seq<NodeView>, all: bool, i: int)
    requires
        0 <= i < children.len(),
    ensures
        register_clusters(children.take(i + 1), all) == match register_clusters(
            children.take(i),
            all,
        ) {
            Err(e) => Err(e),
            Ok(done) => if !all && !is_register_or_cluster(children[i]) {
                Ok(done)
            } else {
                match spec_register_cluster(children[i]) {
                    Ok(v) => Ok(done.push(v)),
                    Err(e) => Err(e),
                }
            },
        },
{
    assert(children.take(i + 1).drop_last() == children.take(i));
}

/// A failure among the first `k` children is the failure of the whole list.
pub proof fn lemma_register_clusters_failure(children: Seq<NodeView>, all: bool, k: int)
    requires
        0 <= k <= children.len(),
        register_clusters(children.take(k), all) is Err,
    ensures
        register_clusters(children, all) == register_clusters(children.take(k), all),
    decreases children.len() - k,
{
    if k == children.len() {
        assert(children.take(k) == children);
    } else {
        assert(children.drop_last().take(k) == children.take(k));
        lemma_register_clusters_failure(children.drop_last(), all, k);
    }
}

/// Decodes a child of a register container as a register or as a cluster,
/// by its tag.
pub fn cluster_register_parse(node: &Node) -> (r: Result<RegisterCluster, SVDError>)
    ensures
        outcome(r) == spec_register_cluster(node@),
        r matches Ok(v) ==> v@.wf(),
    decreases node, 3int,
{
    proof {
        lemma_register_cluster_wf(node@);
    }
    if str_eq(node.name.as_str(), "register") {
        match Register::parse(node) {
            Ok(v) => Ok(RegisterCluster::Register(v)),
            Err(e) => Err(e),
        }
    } else if str_eq(node.name.as_str(), "cluster") {
        match Cluster::parse(node) {
            Ok(v) => Ok(RegisterCluster::Cluster(v)),
            Err(e) => Err(e),
        }
    } else {
        Err(SVDError::new(SVDErrorKind::InvalidRegisterCluster(node.clone(), node.name.clone())))
    }
}

/// Decodes the children of `node` as registers and clusters, in document
/// order. Where `all` holds a child with another tag is a failure; where it
/// does not, such a child is passed over.
pub fn parse_register_clusters(node: &Node, all: bool) -> (r: Result<
    Vec<RegisterCluster>,
    SVDError,
>)
    ensures
        outcome(r) == register_clusters(node@.children, all),
        r matches Ok(list) ==> all_wf(list.deep_view()),
    decreases node, 0int,
{
    proof {
        lemma_register_clusters_wf(node@.children, all);
    }
    let ghost every = node@.children;
    let mut list: Vec<RegisterCluster> = Vec::new();
    let mut i: usize = 0;
    proof {
        lemma_children_view(*node);
        assert(list.deep_view() =~= Seq::empty());
    }
    while i < node.children.len()
        invariant
            i <= node.children.len(),
            every == node@.children,
            every == node.children.deep_view(),
            register_clusters(every.take(i as int), all) == Ok::<
                Seq<RegisterClusterView>,
                SVDErrorView,
            >(list.deep_view()),
        decreases node.children.len() - i,
    {
        proof {
            lemma_register_clusters_step(every, all, i as int);
        }
        let c = &node.children[i];
        let wanted = all || str_eq(c.name.as_str(), "register") || str_eq(
            c.name.as_str(),
            "cluster",
        );
        if wanted {
            let ghost before = list.deep_view();
            match cluster_register_parse(c) {
                Err(e) => {
                    proof {
                        lemma_register_clusters_failure(every, all, i + 1);
                    }
                    return Err(e);
                },
                Ok(v) => {
                    list.push(v);
                    assert(list.deep_view() =~= before.push(v.deep_view()));
                },
            }
        }
        i += 1;
    }
    proof {
        assert(every.take(i as int) == every);
    }
    Ok(list)
}

impl ClusterInfo {
    /// Decodes the properties of the cluster that `node` describes, with the
    /// registers and clusters among its children.
    pub fn parse(node: &Node) -> (r: Result<ClusterInfo, SVDError>)
        ensures
            outcome(r) == spec_cluster_info(node@),
        decreases node, 1int,
    {
        let name = match node.get_child_text("name") {
            Err(e) => { return Err(e); },
            Ok(v) => v,
        };
        let description = match node.get_child_text("description") {
            Err(e) => { return Err(e); },
            Ok(v) => v,
        };
        let header_struct_name = match node.get_child_text_opt("headerStructName") {
            Err(e) => { return Err(e); },
            Ok(v) => v,
        };
        let address_offset = match get_child_u32("addressOffset", node) {
            Err(e) => { return Err(e); },
            Ok(v) => v,
        };
        let size = match get_child_u32_opt("size", node) {
            Err(e) => { return Err(e); },
            Ok(v) => v,
        };
        let access = match Access::parse_child(node) {
            Err(e) => { return Err(e); },
            Ok(v) => v,
        };
        let reset_value = match get_child_u32_opt("resetValue", node) {
            Err(e) => { return Err(e); },
            Ok(v) => v,
        };
        let reset_mask = match get_child_u32_opt("resetMask", node) {
            Err(e) => { return Err(e); },
            Ok(v) => v,
        };
        let children = match parse_register_clusters(node, false) {
            Err(e) => { return Err(e); },
            Ok(v) => v,
        };
        let info = ClusterInfo {
            name,
            description,
            header_struct_name,
            address_offset,
            size,
            access,
            reset_value,
            reset_mask,
            children,
        };
        proof {
            lemma_register_clusters_view(children, info);
        }
        Ok(info)
    }
}

impl Cluster {
    /// Decodes the cluster, or array of clusters, that the `cluster` element
    /// `node` describes.
    pub fn parse(node: &Node) -> (r: Result<Cluster, SVDError>)
        ensures
            outcome(r) == spec_cluster(node@),
            r matches Ok(v) ==> v@.wf(),
        decreases node, 2int,
    {
        proof {
            lemma_cluster_array(node@);
        }
        if !str_eq(node.name.as_str(), "cluster") {
            return Err(
                SVDError::new(
                    SVDErrorKind::NotExpectedTag(node.clone(), String::from_str("cluster")),
                ),
            );
        }
        let info = match ClusterInfo::parse(node) {
            Err(e) => { return Err(e); },
            Ok(v) => v,
        };
        if node.get_child("dimIncrement").is_some() {
            let array = match RegisterClusterArrayInfo::parse(node) {
                Err(e) => { return Err(e); },
                Ok(v) => v,
            };
            if !contains_pair(info.name.as_str(), '%', 's') {
                return Err(SVDError::new(SVDErrorKind::MissingPlaceholder(info.name)));
            }
            Ok(Cluster::Array(info, array))
        } else {
            Ok(Cluster::Single(info))
        }
    }
}

impl core::ops::Deref for Cluster {
    type Target = ClusterInfo;

    /// The properties, whether of a single cluster or of an array.
    fn deref(&self) -> (info: &ClusterInfo)
        ensures
            info@ == self@.info(),
    {
        match self {
            Cluster::Single(info) => info,
            Cluster::Array(info, _) => info,
        }
    }
}

/// What a child of a register container describes is a register exactly
/// where the child is tagged `register`, and a cluster exactly where it is
/// tagged `cluster`.
pub proof fn lemma_register_cluster_kind(n: NodeView)
    ensures
        spec_register_cluster(n) matches Ok(v) ==> {
            &&& v is Register <==> n.name == "register"@
            &&& v is Cluster <==> n.name == "cluster"@
        },
{
    reveal_strlit("register");
    reveal_strlit("cluster");
    assert("register"@.len() == 8);
    assert("cluster"@.len() == 7);
}

/// A `registers` container keeps the order of the document: it describes
/// as many registers and clusters as it has children, the one at each place
/// is what the child at that place describes, and it is a register where
/// that child is tagged `register` and a cluster where it is tagged
/// `cluster`.
pub proof fn lemma_register_clusters_order(children: Seq<NodeView>)
    ensures
        register_clusters(children, true) matches Ok(list) ==> {
            &&& list.len() == children.len()
            &&& forall|i: int|
                0 <= i < list.len() ==> spec_register_cluster(children[i]) == Ok::<
                    RegisterClusterView,
                    SVDErrorView,
                >(#[trigger] list[i])
            &&& forall|i: int|
                0 <= i < list.len() ==> ((#[trigger] list[i]) is Register <==> children[i].name
                    == "register"@)
            &&& forall|i: int|
                0 <= i < list.len() ==> ((#[trigger] list[i]) is Cluster <==> children[i].name
                    == "cluster"@)
        },
    decreases children.len(),
{
    if children.len() > 0 {
        let front = children.drop_last();
        lemma_register_clusters_order(front);
        match register_clusters(front, true) {
            Err(_) => {},
            Ok(done) => {
                match spec_register_cluster(children.last()) {
                    Err(_) => {},
                    Ok(v) => {
                        let list = done.push(v);
                        assert(register_clusters(children, true) == Ok::<
                            Seq<RegisterClusterView>,
                            SVDErrorView,
                        >(list));
                        assert forall|i: int| 0 <= i < list.len() implies spec_register_cluster(
                            children[i],
                        ) == Ok::<RegisterClusterView, SVDErrorView>(#[trigger] list[i]) by {
                            if i < front.len() {
                                assert(front[i] == children[i]);
                                assert(list[i] == done[i]);
                            } else {
                                assert(children[i] == children.last());
                            }
                        }
                        assert forall|i: int| 0 <= i < list.len() implies ((
                        #[trigger] list[i]) is Register <==> children[i].name == "register"@) && (
                        list[i] is Cluster <==> children[i].name == "cluster"@) by {
                            lemma_register_cluster_kind(children[i]);
                        }
                    },
                }
            },
        }
    }
}

/// What a child of a register container describes is well-formed, with
/// all that is below it.
pub proof fn lemma_register_cluster_wf(n: NodeView)
    ensures
        spec_register_cluster(n) matches Ok(v) ==> v.wf(),
    decreases n, 3int,
{
    if n.name == "register"@ {
        lemma_register_array(n);
    } else if n.name == "cluster"@ {
        lemma_cluster_array(n);
    }
}

/// What the children of a container describe is well-formed, one and all.
pub proof fn lemma_register_clusters_wf(children: Seq<NodeView>, all: bool)
    ensures
        register_clusters(children, all) matches Ok(list) ==> all_wf(list),
    decreases children, 0int,
{
    if children.len() > 0 {
        let front = children.drop_last();
        lemma_register_clusters_wf(front, all);
        match register_clusters(front, all) {
            Err(_) => {},
            Ok(done) => {
                if all || is_register_or_cluster(children.last()) {
                    lemma_register_cluster_wf(children.last());
                    match spec_register_cluster(children.last()) {
                        Err(_) => {},
                        Ok(v) => {
                            let list = done.push(v);
                            assert forall|i: int| 0 <= i < list.len() implies register_cluster_wf(
                                #[trigger] list[i],
                            ) by {
                                if i < done.len() {
                                    assert(list[i] == done[i]);
                                }
                            }
                        },
                    }
                }
            },
        }
    }
}

/// The properties of a cluster that is decoded hold well-formed children
/// only.
pub proof fn lemma_cluster_info_wf(n: NodeView)
    ensures
        spec_cluster_info(n) matches Ok(info) ==> cluster_info_wf(info),
    decreases n, 1int,
{
    lemma_register_clusters_wf(n.children, false);
}

/// A cluster that is decoded is well-formed with all that is below it: an
/// array has the placeholder in its name and a label for each element where
/// labels are listed. It is an array exactly where the node has a child
/// `dimIncrement`, and a node with that child whose labels are not as many
/// as `dim` says is refused.
pub proof fn lemma_cluster_array(n: NodeView)
    ensures
        spec_cluster(n) matches Ok(c) ==> c.wf(),
        spec_cluster(n) matches Ok(c) ==> (c is Array <==> n.child("dimIncrement"@) is Some),
        (child_text(n, "dim"@) matches Ok(t) && radix_u32(t, 10) matches Some(dim) && dim_labels(
            n,
        ) matches Ok(Some(labels)) && labels.len() != dim && n.child("dimIncrement"@) is Some)
            ==> spec_cluster(n) is Err,
    decreases n, 2int,
{
    lemma_array_labels(n);
    lemma_cluster_info_wf(n);
}

} // verus!
