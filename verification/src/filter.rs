//! What the filter menu needs of the taxonomy: the groups it sorts the kinds
//! into, the legend of each kind, and the counts it shows.

use crate::element::{
    ElementType, GenericEdge, GenericNode, GenericType, OwlEdge, OwlNode, OwlType, RdfEdge,
    RdfType, RdfsEdge, RdfsNode, RdfsType,
};
use crate::table::{lookup, put, Modeled, Table};
use crate::text::{decimal, decimal_text};
use vstd::prelude::*;
use vstd::string::*;

verus! {

/// Whether a kind is one of the four nodes that stand for a set operator.
pub open spec fn set_operator(item: ElementType) -> bool {
    item == ElementType::Owl(OwlType::Node(OwlNode::Complement)) || item == ElementType::Owl(
        OwlType::Node(OwlNode::DisjointUnion),
    ) || item == ElementType::Owl(OwlType::Node(OwlNode::IntersectionOf)) || item
        == ElementType::Owl(OwlType::Node(OwlNode::UnionOf))
}

/// Whether a kind is an OWL node other than a set operator.
pub open spec fn owl_class(item: ElementType) -> bool {
    item is Owl && item->Owl_0 is Node && !set_operator(item)
}

/// Whether a kind is an RDFS node.
pub open spec fn rdf_class(item: ElementType) -> bool {
    item is Rdfs && item->Rdfs_0 is Node
}

/// Whether a kind is an edge, of whichever family.
pub open spec fn property(item: ElementType) -> bool {
    match item {
        ElementType::Generic(GenericType::Edge(_)) => true,
        ElementType::Owl(OwlType::Edge(_)) => true,
        ElementType::Rdf(RdfType::Edge(_)) => true,
        ElementType::Rdfs(RdfsType::Edge(_)) => true,
        _ => false,
    }
}

pub fn is_set_operator(item: ElementType) -> (out: bool)
    ensures
        out == set_operator(item),
{
    match item {
        ElementType::Owl(OwlType::Node(node)) => match node {
            OwlNode::Complement => true,
            OwlNode::DisjointUnion => true,
            OwlNode::IntersectionOf => true,
            OwlNode::UnionOf => true,
            _ => false,
        },
        _ => false,
    }
}

pub fn is_owl_class(item: ElementType) -> (out: bool)
    ensures
        out == owl_class(item),
{
    let class = match item {
        ElementType::Owl(OwlType::Node(_)) => true,
        _ => false,
    };
    class && !is_set_operator(item)
}

pub fn is_rdf_class(item: ElementType) -> (out: bool)
    ensures
        out == rdf_class(item),
{
    match item {
        ElementType::Rdfs(RdfsType::Node(_)) => true,
        _ => false,
    }
}

pub fn is_property(item: ElementType) -> (out: bool)
    ensures
        out == property(item),
{
    match item {
        ElementType::Generic(GenericType::Edge(_)) => true,
        ElementType::Owl(OwlType::Edge(_)) => true,
        ElementType::Rdf(RdfType::Edge(_)) => true,
        ElementType::Rdfs(RdfsType::Edge(_)) => true,
        _ => false,
    }
}

/// Every kind but the one that is not drawn falls into exactly one of the
/// four groups of the filter menu, or is a generic node.
pub proof fn lemma_groups_partition(item: ElementType)
    ensures
        !(owl_class(item) && set_operator(item)),
        !(owl_class(item) && rdf_class(item)),
        !(owl_class(item) && property(item)),
        !(set_operator(item) && rdf_class(item)),
        !(set_operator(item) && property(item)),
        !(rdf_class(item) && property(item)),
        owl_class(item) || set_operator(item) || rdf_class(item) || property(item) || item
            == ElementType::NoDraw || item == ElementType::Generic(
            GenericType::Node(GenericNode::Generic),
        ),
{
}

/// Some predicate of `filters` can answer yes to `e`.
pub open spec fn kept_by<T: Fn(ElementType) -> bool>(filters: Seq<T>, e: ElementType) -> bool {
    exists|i: int| 0 <= i < filters.len() && call_ensures(#[trigger] filters[i], (e,), true)
}

/// Every predicate of `filters` can answer no to `e`.
pub open spec fn dropped_by<T: Fn(ElementType) -> bool>(filters: Seq<T>, e: ElementType) -> bool {
    forall|i: int| 0 <= i < filters.len() ==> call_ensures(#[trigger] filters[i], (e,), false)
}

/// Of the first `n` items, those that `keep` marks, in order.
pub open spec fn selected<A>(items: Seq<A>, keep: Seq<bool>, n: nat) -> Seq<A>
    decreases n,
{
    if n == 0 {
        Seq::empty()
    } else if keep[n - 1] {
        selected(items, keep, (n - 1) as nat).push(items[n - 1])
    } else {
        selected(items, keep, (n - 1) as nat)
    }
}

/// `out` is what is left of `elements` when each is kept if some predicate
/// answered yes to it and dropped if every predicate answered no.
pub open spec fn filtered<T: Fn(ElementType) -> bool>(
    elements: Seq<ElementType>,
    filters: Seq<T>,
    out: Seq<ElementType>,
) -> bool {
    exists|keep: Seq<bool>| #[trigger]
        keep.len() == elements.len() && out == selected(elements, keep, elements.len()) && forall|
            j: int,
        |
            0 <= j < elements.len() ==> if #[trigger] keep[j] {
                kept_by(filters, elements[j])
            } else {
                dropped_by(filters, elements[j])
            }
}

pub proof fn lemma_selected_none<A>(items: Seq<A>, keep: Seq<bool>, n: nat)
    requires
        n <= items.len() == keep.len(),
        forall|j: int| 0 <= j < n ==> !keep[j],
    ensures
        selected(items, keep, n) == Seq::<A>::empty(),
    decreases n,
{
    if n > 0 {
        lemma_selected_none(items, keep, (n - 1) as nat);
    }
}

pub proof fn lemma_selected_all<A>(items: Seq<A>, keep: Seq<bool>, n: nat)
    requires
        n <= items.len() == keep.len(),
        forall|j: int| 0 <= j < n ==> keep[j],
    ensures
        selected(items, keep, n) == items.subrange(0, n as int),
    decreases n,
{
    if n > 0 {
        lemma_selected_all(items, keep, (n - 1) as nat);
        assert(items.subrange(0, n - 1).push(items[n - 1]) =~= items.subrange(0, n as int));
    } else {
        assert(items.subrange(0, 0) =~= Seq::<A>::empty());
    }
}

/// With no predicate at all, nothing is kept.
pub proof fn lemma_no_predicate_keeps_nothing<T: Fn(ElementType) -> bool>(
    elements: Seq<ElementType>,
    filters: Seq<T>,
    out: Seq<ElementType>,
)
    requires
        filtered(elements, filters, out),
        filters.len() == 0,
    ensures
        out == Seq::<ElementType>::empty(),
{
    let keep = choose|keep: Seq<bool>| #[trigger]
        keep.len() == elements.len() && out == selected(elements, keep, elements.len()) && forall|
            j: int,
        |
            0 <= j < elements.len() ==> if #[trigger] keep[j] {
                kept_by(filters, elements[j])
            } else {
                dropped_by(filters, elements[j])
            };
    lemma_selected_none(elements, keep, elements.len());
}

/// With a predicate that never answers no, everything is kept.
pub proof fn lemma_true_predicate_keeps_all<T: Fn(ElementType) -> bool>(
    elements: Seq<ElementType>,
    filters: Seq<T>,
    out: Seq<ElementType>,
    i: int,
)
    requires
        filtered(elements, filters, out),
        0 <= i < filters.len(),
        forall|e: ElementType| !call_ensures(filters[i], (e,), false),
    ensures
        out == elements,
{
    let keep = choose|keep: Seq<bool>| #[trigger]
        keep.len() == elements.len() && out == selected(elements, keep, elements.len()) && forall|
            j: int,
        |
            0 <= j < elements.len() ==> if #[trigger] keep[j] {
                kept_by(filters, elements[j])
            } else {
                dropped_by(filters, elements[j])
            };
    assert forall|j: int| 0 <= j < elements.len() implies keep[j] by {
        if !keep[j] {
            assert(dropped_by(filters, elements[j]));
            assert(call_ensures(filters[i], (elements[j],), false));
        }
    }
    lemma_selected_all(elements, keep, elements.len());
    assert(elements.subrange(0, elements.len() as int) =~= elements);
}

/// Keeps the elements to which at least one of the predicates says yes, in
/// their order.
pub fn filter<T: Fn(ElementType) -> bool>(elements: Vec<ElementType>, filters: &[T]) -> (out: Vec<
    ElementType,
>)
    requires
        forall|i: int, j: int|
            0 <= i < filters@.len() && 0 <= j < elements@.len() ==> call_requires(
                #[trigger] filters@[i],
                (#[trigger] elements@[j],),
            ),
    ensures
        filtered(elements@, filters@, out@),
        filters@.len() == 0 ==> out@.len() == 0,
{
    let mut out: Vec<ElementType> = Vec::new();
    let ghost mut keep: Seq<bool> = Seq::empty();
    let count = elements.len();
    let mut j: usize = 0;
    while j < count
        invariant
            j <= count,
            count == elements@.len(),
            keep.len() == j,
            out@ == selected(elements@, keep, j as nat),
            filters@.len() == 0 ==> out@.len() == 0,
            forall|i: int, j: int|
                0 <= i < filters@.len() && 0 <= j < elements@.len() ==> call_requires(
                    #[trigger] filters@[i],
                    (#[trigger] elements@[j],),
                ),
            forall|k: int|
                0 <= k < j ==> if #[trigger] keep[k] {
                    kept_by(filters@, elements@[k])
                } else {
                    dropped_by(filters@, elements@[k])
                },
        decreases count - j,
    {
        let elem = elements[j];
        let mut any = false;
        let mut i: usize = 0;
        while i < filters.len() && !any
            invariant
                i <= filters@.len(),
                0 <= j < elements@.len(),
                elem == elements@[j as int],
                forall|i: int, j: int|
                    0 <= i < filters@.len() && 0 <= j < elements@.len() ==> call_requires(
                        #[trigger] filters@[i],
                        (#[trigger] elements@[j],),
                    ),
                any ==> kept_by(filters@, elem),
                !any ==> forall|k: int|
                    0 <= k < i ==> call_ensures(#[trigger] filters@[k], (elem,), false),
            decreases filters@.len() - i + if any { 0int } else { 1int },
        {
            let verdict = (filters[i])(elem);
            if verdict {
                any = true;
            }
            i += 1;
        }
        let ghost before = keep;
        proof {
            keep = keep.push(any);
            lemma_selected_prefix(elements@, before, keep, j as nat);
        }
        if any {
            out.push(elem);
        }
        j += 1;
    }
    assert(filtered(elements@, filters@, out@)) by {
        let witness = keep;
        assert(witness.len() == elements@.len());
    }
    out
}

/// What is selected of the first `n` items depends on the first `n` marks
/// alone.
pub proof fn lemma_selected_prefix<A>(items: Seq<A>, a: Seq<bool>, b: Seq<bool>, n: nat)
    requires
        n <= a.len(),
        n <= b.len(),
        forall|j: int| 0 <= j < n ==> a[j] == b[j],
    ensures
        selected(items, a, n) == selected(items, b, n),
    decreases n,
{
    if n > 0 {
        lemma_selected_prefix(items, a, b, (n - 1) as nat);
    }
}

/// Gives the picture that explains a kind in the legend.
pub trait ElementLegend: Sized {
    /// The path of the picture, or none for a kind that has no picture.
    spec fn legend_path(self) -> Option<Seq<char>>;

    /// Get the legend of `self`.
    fn legend(self) -> (out: Option<String>)
        ensures
            out.model() == self.legend_path(),
    ;
}

pub open spec fn owl_node_legend(item: OwlNode) -> Option<Seq<char>> {
    match item {
        OwlNode::AnonymousClass => Some("/node_legends/AnonymousClass.png"@),
        OwlNode::Class => Some("/node_legends/Class.png"@),
        OwlNode::Complement => Some("/node_legends/Complement.png"@),
        OwlNode::DeprecatedClass => Some("/node_legends/DeprecatedClass.png"@),
        OwlNode::ExternalClass => Some("/node_legends/ExternalClass.png"@),
        OwlNode::EquivalentClass => Some("/node_legends/EquivalentClass.png"@),
        OwlNode::DisjointUnion => Some("/node_legends/DisjointUnion.png"@),
        OwlNode::IntersectionOf => Some("/node_legends/Intersection.png"@),
        OwlNode::Thing => Some("/node_legends/Thing.png"@),
        OwlNode::UnionOf => Some("/node_legends/Union.png"@),
    }
}

impl ElementLegend for OwlNode {
    open spec fn legend_path(self) -> Option<Seq<char>> {
        owl_node_legend(self)
    }

    fn legend(self) -> (out: Option<String>) {
        match self {
            OwlNode::AnonymousClass => Some(String::from_str("/node_legends/AnonymousClass.png")),
            OwlNode::Class => Some(String::from_str("/node_legends/Class.png")),
            OwlNode::Complement => Some(String::from_str("/node_legends/Complement.png")),
            OwlNode::DeprecatedClass => Some(String::from_str("/node_legends/DeprecatedClass.png")),
            OwlNode::ExternalClass => Some(String::from_str("/node_legends/ExternalClass.png")),
            OwlNode::EquivalentClass => Some(String::from_str("/node_legends/EquivalentClass.png")),
            OwlNode::DisjointUnion => Some(String::from_str("/node_legends/DisjointUnion.png")),
            OwlNode::IntersectionOf => Some(String::from_str("/node_legends/Intersection.png")),
            OwlNode::Thing => Some(String::from_str("/node_legends/Thing.png")),
            OwlNode::UnionOf => Some(String::from_str("/node_legends/Union.png")),
        }
    }
}

pub open spec fn owl_edge_legend(item: OwlEdge) -> Option<Seq<char>> {
    match item {
        OwlEdge::DatatypeProperty => Some("/node_legends/DatatypeProperty.png"@),
        OwlEdge::DisjointWith => Some("/node_legends/Disjoint.png"@),
        OwlEdge::DeprecatedProperty => Some("/node_legends/DeprecatedProperty.png"@),
        OwlEdge::ExternalProperty => Some("/node_legends/ExternalProperty.png"@),
        OwlEdge::InverseOf => None,
        OwlEdge::ObjectProperty => None,
        OwlEdge::ValuesFrom => None,
    }
}

impl ElementLegend for OwlEdge {
    open spec fn legend_path(self) -> Option<Seq<char>> {
        owl_edge_legend(self)
    }

    fn legend(self) -> (out: Option<String>) {
        match self {
            OwlEdge::DatatypeProperty => Some(String::from_str("/node_legends/DatatypeProperty.png")),
            OwlEdge::DisjointWith => Some(String::from_str("/node_legends/Disjoint.png")),
            OwlEdge::DeprecatedProperty => Some(String::from_str("/node_legends/DeprecatedProperty.png")),
            OwlEdge::ExternalProperty => Some(String::from_str("/node_legends/ExternalProperty.png")),
            OwlEdge::InverseOf => None,
            OwlEdge::ObjectProperty => None,
            OwlEdge::ValuesFrom => None,
        }
    }
}

pub open spec fn rdfs_node_legend(item: RdfsNode) -> Option<Seq<char>> {
    match item {
        RdfsNode::Class => Some("/node_legends/RdfsClass.png"@),
        RdfsNode::Literal => Some("/node_legends/Literal.png"@),
        RdfsNode::Resource => Some("/node_legends/RdfsResource.png"@),
        RdfsNode::Datatype => Some("/node_legends/Datatype.png"@),
    }
}

impl ElementLegend for RdfsNode {
    open spec fn legend_path(self) -> Option<Seq<char>> {
        rdfs_node_legend(self)
    }

    fn legend(self) -> (out: Option<String>) {
        match self {
            RdfsNode::Class => Some(String::from_str("/node_legends/RdfsClass.png")),
            RdfsNode::Literal => Some(String::from_str("/node_legends/Literal.png")),
            RdfsNode::Resource => Some(String::from_str("/node_legends/RdfsResource.png")),
            RdfsNode::Datatype => Some(String::from_str("/node_legends/Datatype.png")),
        }
    }
}

pub open spec fn rdfs_edge_legend(item: RdfsEdge) -> Option<Seq<char>> {
    match item {
        RdfsEdge::SubclassOf => Some("/node_legends/SubclassOf.png"@),
    }
}

impl ElementLegend for RdfsEdge {
    open spec fn legend_path(self) -> Option<Seq<char>> {
        rdfs_edge_legend(self)
    }

    fn legend(self) -> (out: Option<String>) {
        match self {
            RdfsEdge::SubclassOf => Some(String::from_str("/node_legends/SubclassOf.png")),
        }
    }
}

pub open spec fn rdf_edge_legend(item: RdfEdge) -> Option<Seq<char>> {
    match item {
        RdfEdge::RdfProperty => None,
    }
}

impl ElementLegend for RdfEdge {
    open spec fn legend_path(self) -> Option<Seq<char>> {
        rdf_edge_legend(self)
    }

    fn legend(self) -> (out: Option<String>) {
        match self {
            RdfEdge::RdfProperty => None,
        }
    }
}

pub open spec fn generic_node_legend(item: GenericNode) -> Option<Seq<char>> {
    match item {
        GenericNode::Generic => None,
    }
}

impl ElementLegend for GenericNode {
    open spec fn legend_path(self) -> Option<Seq<char>> {
        generic_node_legend(self)
    }

    fn legend(self) -> (out: Option<String>) {
        match self {
            GenericNode::Generic => None,
        }
    }
}

pub open spec fn generic_edge_legend(item: GenericEdge) -> Option<Seq<char>> {
    match item {
        GenericEdge::Generic => None,
    }
}

impl ElementLegend for GenericEdge {
    open spec fn legend_path(self) -> Option<Seq<char>> {
        generic_edge_legend(self)
    }

    fn legend(self) -> (out: Option<String>) {
        match self {
            GenericEdge::Generic => None,
        }
    }
}

/// The legend of a kind is that of the node or edge it holds; what is not
/// drawn has none.
pub open spec fn element_legend(item: ElementType) -> Option<Seq<char>> {
    match item {
        ElementType::NoDraw => None,
        ElementType::Rdf(RdfType::Edge(edge)) => rdf_edge_legend(edge),
        ElementType::Rdfs(RdfsType::Node(node)) => rdfs_node_legend(node),
        ElementType::Rdfs(RdfsType::Edge(edge)) => rdfs_edge_legend(edge),
        ElementType::Owl(OwlType::Node(node)) => owl_node_legend(node),
        ElementType::Owl(OwlType::Edge(edge)) => owl_edge_legend(edge),
        ElementType::Generic(GenericType::Node(node)) => generic_node_legend(node),
        ElementType::Generic(GenericType::Edge(edge)) => generic_edge_legend(edge),
    }
}

impl ElementLegend for ElementType {
    open spec fn legend_path(self) -> Option<Seq<char>> {
        element_legend(self)
    }

    fn legend(self) -> (out: Option<String>) {
        match self {
            ElementType::NoDraw => None,
            ElementType::Rdf(RdfType::Edge(edge)) => edge.legend(),
            ElementType::Rdfs(RdfsType::Node(node)) => node.legend(),
            ElementType::Rdfs(RdfsType::Edge(edge)) => edge.legend(),
            ElementType::Owl(OwlType::Node(node)) => node.legend(),
            ElementType::Owl(OwlType::Edge(edge)) => edge.legend(),
            ElementType::Generic(GenericType::Node(node)) => node.legend(),
            ElementType::Generic(GenericType::Edge(edge)) => edge.legend(),
        }
    }
}

/// How many elements of the first `n` kinds there are, by the counts given;
/// a kind without a count has none.
pub open spec fn group_total_spec(
    items: Seq<ElementType>,
    counts: Seq<(ElementType, usize)>,
    n: nat,
) -> nat
    decreases n,
{
    if n == 0 {
        0
    } else {
        group_total_spec(items, counts, (n - 1) as nat) + count_of(counts, items[n - 1])
    }
}

pub open spec fn count_of(counts: Seq<(ElementType, usize)>, item: ElementType) -> nat {
    match lookup::<ElementType, usize>(counts, item) {
        Some(count) => count as nat,
        None => 0,
    }
}

/// Whether a kind is shown: it is unless it was switched off.
pub open spec fn enabled(checks: Seq<(ElementType, bool)>, item: ElementType) -> bool {
    match lookup::<ElementType, bool>(checks, item) {
        Some(check) => check,
        None => true,
    }
}

/// How many elements of the first `n` kinds are shown.
pub open spec fn group_rendered_spec(
    items: Seq<ElementType>,
    checks: Seq<(ElementType, bool)>,
    counts: Seq<(ElementType, usize)>,
    n: nat,
) -> nat
    decreases n,
{
    if n == 0 {
        0
    } else {
        group_rendered_spec(items, checks, counts, (n - 1) as nat) + if enabled(
            checks,
            items[n - 1],
        ) {
            count_of(counts, items[n - 1])
        } else {
            0
        }
    }
}

/// Whether each of the first `n` kinds is shown.
pub open spec fn all_enabled_spec(
    items: Seq<ElementType>,
    checks: Seq<(ElementType, bool)>,
    n: nat,
) -> bool {
    forall|j: int| 0 <= j < n ==> enabled(checks, #[trigger] items[j])
}

/// The checks with each of the first `n` kinds set to `state`.
pub open spec fn set_all_spec(
    items: Seq<ElementType>,
    checks: Seq<(ElementType, bool)>,
    state: bool,
    n: nat,
) -> Seq<(ElementType, bool)>
    decreases n,
{
    if n == 0 {
        checks
    } else {
        put::<ElementType, bool>(
            set_all_spec(items, checks, state, (n - 1) as nat),
            items[n - 1],
            state,
        )
    }
}

/// The title of a group: its name, and how many of its elements are shown
/// out of how many there are.
pub open spec fn group_title_spec(name: Seq<char>, rendered: nat, total: nat) -> Seq<char> {
    name + ": ("@ + decimal_text(rendered) + "/"@ + decimal_text(total) + ")"@
}

pub proof fn lemma_rendered_at_most_total(
    items: Seq<ElementType>,
    checks: Seq<(ElementType, bool)>,
    counts: Seq<(ElementType, usize)>,
    n: nat,
)
    ensures
        group_rendered_spec(items, checks, counts, n) <= group_total_spec(items, counts, n),
    decreases n,
{
    if n > 0 {
        lemma_rendered_at_most_total(items, checks, counts, (n - 1) as nat);
    }
}

pub proof fn lemma_total_grows(items: Seq<ElementType>, counts: Seq<(ElementType, usize)>, m: nat, n: nat)
    requires
        m <= n,
    ensures
        group_total_spec(items, counts, m) <= group_total_spec(items, counts, n),
    decreases n,
{
    if m < n {
        lemma_total_grows(items, counts, m, (n - 1) as nat);
    }
}

/// How many elements a group has in all. The sum must fit the machine's
/// numbers.
pub fn group_total(items: &Vec<ElementType>, counts: &Table<ElementType, usize>) -> (out: usize)
    requires
        group_total_spec(items@, counts@, items@.len()) <= usize::MAX,
    ensures
        out == group_total_spec(items@, counts@, items@.len()),
{
    let mut total: usize = 0;
    let mut i: usize = 0;
    while i < items.len()
        invariant
            i <= items@.len(),
            total == group_total_spec(items@, counts@, i as nat),
            group_total_spec(items@, counts@, items@.len()) <= usize::MAX,
        decreases items@.len() - i,
    {
        let count: usize = match counts.get(&items[i]) {
            Some(count) => *count,
            None => 0,
        };
        proof {
            lemma_total_grows(items@, counts@, (i + 1) as nat, items@.len());
        }
        total = total + count;
        i += 1;
    }
    total
}

/// How many elements of a group are shown.
pub fn group_rendered(
    items: &Vec<ElementType>,
    checks: &Table<ElementType, bool>,
    counts: &Table<ElementType, usize>,
) -> (out: usize)
    requires
        group_total_spec(items@, counts@, items@.len()) <= usize::MAX,
    ensures
        out == group_rendered_spec(items@, checks@, counts@, items@.len()),
        out <= group_total_spec(items@, counts@, items@.len()),
{
    let mut rendered: usize = 0;
    let mut i: usize = 0;
    while i < items.len()
        invariant
            i <= items@.len(),
            rendered == group_rendered_spec(items@, checks@, counts@, i as nat),
            group_total_spec(items@, counts@, items@.len()) <= usize::MAX,
        decreases items@.len() - i,
    {
        let shown = match checks.get(&items[i]) {
            Some(check) => *check,
            None => true,
        };
        let count: usize = match counts.get(&items[i]) {
            Some(count) => *count,
            None => 0,
        };
        proof {
            lemma_total_grows(items@, counts@, (i + 1) as nat, items@.len());
            lemma_rendered_at_most_total(items@, checks@, counts@, (i + 1) as nat);
        }
        if shown {
            rendered = rendered + count;
        }
        i += 1;
    }
    proof {
        lemma_rendered_at_most_total(items@, checks@, counts@, items@.len());
    }
    rendered
}

/// Whether every kind of a group is shown.
pub fn all_enabled(items: &Vec<ElementType>, checks: &Table<ElementType, bool>) -> (out: bool)
    ensures
        out == all_enabled_spec(items@, checks@, items@.len()),
{
    let mut i: usize = 0;
    while i < items.len()
        invariant
            i <= items@.len(),
            all_enabled_spec(items@, checks@, i as nat),
        decreases items@.len() - i,
    {
        let shown = match checks.get(&items[i]) {
            Some(check) => *check,
            None => true,
        };
        if !shown {
            return false;
        }
        i += 1;
    }
    true
}

/// The one checkbox of a group: it shows every kind unless every kind is
/// shown already, and then hides them all.
pub fn toggle_group(items: &Vec<ElementType>, checks: &mut Table<ElementType, bool>)
    ensures
        final(checks)@ == set_all_spec(
            items@,
            old(checks)@,
            !all_enabled_spec(items@, old(checks)@, items@.len()),
            items@.len(),
        ),
{
    let target_state = !all_enabled(items, checks);
    let mut i: usize = 0;
    while i < items.len()
        invariant
            i <= items@.len(),
            checks@ == set_all_spec(items@, old(checks)@, target_state, i as nat),
        decreases items@.len() - i,
    {
        checks.insert(items[i], target_state);
        i += 1;
    }
}

/// Writes the title of a group.
pub fn group_title(name: &str, rendered: usize, total: usize) -> (out: String)
    ensures
        out@ == group_title_spec(name@, rendered as nat, total as nat),
{
    let mut out = String::from_str(name);
    out.append(": (");
    let shown = decimal(rendered);
    out.append(shown.as_str());
    out.append("/");
    let all = decimal(total);
    out.append(all.as_str());
    out.append(")");
    out
}

} // verus!
