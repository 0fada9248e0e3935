//! The outline of a registry file and the anchors in it.
//!
//! An outline holds of each top-level node only what the anchors depend on:
//! whether it declares a module, and of which name; whether it implements a
//! trait, of which name, and which functions it holds. Everything here is
//! decided from outlines alone.

use vstd::prelude::*;
use vstd::string::StringExecFns;
use crate::error::{StructureFault, SyncError};

verus! {

/// One top-level node of an outline.
pub enum NodeView {
    /// A module declaration, and whether its name denotes a migration unit.
    Module { name: Seq<char>, unit: bool },
    /// An implementation of a trait: the last segment of the trait's path,
    /// and for each member its name where it is a function.
    Implementation { trait_name: Seq<char>, functions: Seq<Option<Seq<char>>> },
    /// Any other node.
    Other,
}

/// One top-level node of an outline.
#[derive(Debug, PartialEq, Eq)]
pub enum Node {
    /// A module declaration, and whether its name denotes a migration unit.
    Module { name: String, unit: bool },
    /// An implementation of a trait: the last segment of the trait's path,
    /// and for each member its name where it is a function.
    Implementation { trait_name: String, functions: Vec<Option<String>> },
    /// Any other node.
    Other,
}

impl DeepView for Node {
    type V = NodeView;

    open spec fn deep_view(&self) -> NodeView {
        match self {
            Node::Module { name, unit } => NodeView::Module { name: name@, unit: *unit },
            Node::Implementation { trait_name, functions } => NodeView::Implementation {
                trait_name: trait_name@,
                functions: functions.deep_view(),
            },
            Node::Other => NodeView::Other,
        }
    }
}

/// Where the enumeration function is.
pub enum Anchor {
    /// Member `member` of node `item` is the enumeration function.
    Found { item: int, member: int },
    /// No implementation of the migrator trait, or the one there is has no
    /// function of the expected name.
    NotFound,
    /// This many implementations of the migrator trait, more than one.
    Ambiguous(nat),
}

/// The result of looking for the enumeration function.
#[derive(Clone, Copy, Debug, PartialEq, Eq, Structural)]
pub enum Located {
    /// Member `member` of node `item` is the enumeration function.
    Found { item: usize, member: usize },
    /// No implementation of the migrator trait, or the one there is has no
    /// function of the expected name.
    NotFound,
    /// This many implementations of the migrator trait, more than one.
    Ambiguous(usize),
}

impl View for Located {
    type V = Anchor;

    open spec fn view(&self) -> Anchor {
        match *self {
            Located::Found { item, member } => Anchor::Found {
                item: item as int,
                member: member as int,
            },
            Located::NotFound => Anchor::NotFound,
            Located::Ambiguous(count) => Anchor::Ambiguous(count as nat),
        }
    }
}

/// Name of the trait whose implementation holds the enumeration function.
pub open spec fn migrator_trait_name() -> Seq<char> {
    "MigratorTrait"@
}

/// Name of the enumeration function.
pub open spec fn enumeration_name() -> Seq<char> {
    "migrations"@
}

/// Where a new module declaration goes: right after the last module
/// declaration, or at the top where there is none.
pub open spec fn insertion_point(nodes: Seq<NodeView>) -> int
    decreases nodes.len(),
{
    if nodes.len() == 0 {
        0
    } else if nodes.last() is Module {
        nodes.len() as int
    } else {
        insertion_point(nodes.drop_last())
    }
}

/// The names of the module declarations that denote migration units, in file
/// order.
pub open spec fn migration_names(nodes: Seq<NodeView>) -> Seq<Seq<char>>
    decreases nodes.len(),
{
    if nodes.len() == 0 {
        Seq::empty()
    } else {
        let before = migration_names(nodes.drop_last());
        match nodes.last() {
            NodeView::Module { name, unit: true } => before.push(name),
            _ => before,
        }
    }
}

/// The node implements the migrator trait.
pub open spec fn is_migrator(node: NodeView) -> bool {
    node matches NodeView::Implementation { trait_name, .. } && trait_name
        == migrator_trait_name()
}

/// The members of an implementation of a trait; none for any other node.
pub open spec fn functions_of(node: NodeView) -> Seq<Option<Seq<char>>> {
    match node {
        NodeView::Implementation { functions, .. } => functions,
        _ => Seq::empty(),
    }
}

/// How many nodes implement the migrator trait.
pub open spec fn migrator_count(nodes: Seq<NodeView>) -> nat
    decreases nodes.len(),
{
    if nodes.len() == 0 {
        0
    } else {
        migrator_count(nodes.drop_last()) + if is_migrator(nodes.last()) {
            1nat
        } else {
            0nat
        }
    }
}

/// Index of the first node that implements the migrator trait; the number of
/// nodes where none does.
pub open spec fn first_migrator(nodes: Seq<NodeView>) -> int
    decreases nodes.len(),
{
    if nodes.len() == 0 {
        0
    } else if is_migrator(nodes[0]) {
        0
    } else {
        1 + first_migrator(nodes.drop_first())
    }
}

/// Index of the first member that is a function called `name`; the number of
/// members where there is none.
pub open spec fn first_function(functions: Seq<Option<Seq<char>>>, name: Seq<char>) -> int
    decreases functions.len(),
{
    if functions.len() == 0 {
        0
    } else if functions[0] == Some(name) {
        0
    } else {
        1 + first_function(functions.drop_first(), name)
    }
}

/// Where the enumeration function is: the first function of the expected
/// name inside the one implementation of the migrator trait.
pub open spec fn enumeration_anchor(nodes: Seq<NodeView>) -> Anchor {
    let count = migrator_count(nodes);
    if count == 0 {
        Anchor::NotFound
    } else if count > 1 {
        Anchor::Ambiguous(count)
    } else {
        let item = first_migrator(nodes);
        let functions = functions_of(nodes[item]);
        let member = first_function(functions, enumeration_name());
        if member < functions.len() {
            Anchor::Found { item, member }
        } else {
            Anchor::NotFound
        }
    }
}

/// The outline after a module has been declared at the insertion point.
pub open spec fn declared(nodes: Seq<NodeView>, name: Seq<char>, unit: bool) -> Seq<NodeView> {
    nodes.insert(insertion_point(nodes), NodeView::Module { name, unit })
}

/// The handle of one unit inside the enumeration.
pub open spec fn handle_text(name: Seq<char>) -> Seq<char> {
    "Box::new("@ + name + "::Migration)"@
}

/// The handles of the given units, in order, separated by `, `.
pub open spec fn handles_text(names: Seq<Seq<char>>) -> Seq<char>
    decreases names.len(),
{
    if names.len() == 0 {
        Seq::empty()
    } else if names.len() == 1 {
        handle_text(names[0])
    } else {
        handles_text(names.drop_last()) + ", "@ + handle_text(names.last())
    }
}

/// The expression that enumerates the given units: a `vec!` of their
/// handles.
pub open spec fn enumeration_text(names: Seq<Seq<char>>) -> Seq<char> {
    "vec!["@ + handles_text(names) + "]"@
}

/// Past the insertion point there is no module declaration, and right before
/// it, unless it is the top of the file, there is one.
pub proof fn lemma_insertion_point(nodes: Seq<NodeView>)
    ensures
        0 <= insertion_point(nodes) <= nodes.len(),
        forall|k: int| insertion_point(nodes) <= k < nodes.len() ==> !(#[trigger] nodes[k] is Module),
        insertion_point(nodes) > 0 ==> nodes[insertion_point(nodes) - 1] is Module,
    decreases nodes.len(),
{
    if nodes.len() > 0 && !(nodes.last() is Module) {
        lemma_insertion_point(nodes.drop_last());
        assert forall|k: int| insertion_point(nodes) <= k < nodes.len() implies !(
        #[trigger] nodes[k] is Module) by {
            if k < nodes.len() - 1 {
                assert(nodes.drop_last()[k] == nodes[k]);
            }
        };
        if insertion_point(nodes) > 0 {
            assert(nodes.drop_last()[insertion_point(nodes) - 1] == nodes[insertion_point(nodes)
                - 1]);
        }
    }
}

/// The units of two runs of nodes, one after the other, are the units of the
/// first followed by those of the second.
pub proof fn lemma_migration_names_concat(first: Seq<NodeView>, second: Seq<NodeView>)
    ensures
        migration_names(first + second) == migration_names(first) + migration_names(second),
    decreases second.len(),
{
    if second.len() == 0 {
        assert(first + second == first);
        assert(migration_names(first) + Seq::<Seq<char>>::empty() == migration_names(first));
    } else {
        assert((first + second).drop_last() == first + second.drop_last());
        assert((first + second).last() == second.last());
        lemma_migration_names_concat(first, second.drop_last());
        match second.last() {
            NodeView::Module { name, unit: true } => {
                assert((migration_names(first) + migration_names(second.drop_last())).push(name)
                    == migration_names(first) + migration_names(second.drop_last()).push(name));
            },
            _ => {},
        }
    }
}

/// Nodes without a module declaration among them hold no unit.
pub proof fn lemma_migration_names_without_modules(nodes: Seq<NodeView>)
    requires
        forall|k: int| 0 <= k < nodes.len() ==> !(#[trigger] nodes[k] is Module),
    ensures
        migration_names(nodes) == Seq::<Seq<char>>::empty(),
    decreases nodes.len(),
{
    if nodes.len() > 0 {
        assert forall|k: int| 0 <= k < nodes.drop_last().len() implies !(
        #[trigger] nodes.drop_last()[k] is Module) by {
            assert(nodes.drop_last()[k] == nodes[k]);
        };
        lemma_migration_names_without_modules(nodes.drop_last());
        assert(!(nodes[nodes.len() - 1] is Module));
    }
}

/// Declaring a new module puts it behind every unit already declared: the
/// units of the new outline are the old ones, followed by the new name where
/// that name denotes a unit.
pub proof fn lemma_declared_names(nodes: Seq<NodeView>, name: Seq<char>, unit: bool)
    ensures
        migration_names(declared(nodes, name, unit)) == if unit {
            migration_names(nodes).push(name)
        } else {
            migration_names(nodes)
        },
{
    let at = insertion_point(nodes);
    lemma_insertion_point(nodes);
    let head = nodes.take(at);
    let tail = nodes.skip(at);
    let new = seq![NodeView::Module { name, unit }];
    assert(declared(nodes, name, unit) == head + new + tail);
    assert(nodes == head + tail);
    assert forall|k: int| 0 <= k < tail.len() implies !(#[trigger] tail[k] is Module) by {
        assert(tail[k] == nodes[at + k]);
    };
    lemma_migration_names_without_modules(tail);
    assert(migration_names(new) == if unit {
        seq![name]
    } else {
        Seq::empty()
    }) by {
        assert(new.drop_last() == Seq::<NodeView>::empty());
        assert(migration_names(new.drop_last()) == Seq::<Seq<char>>::empty());
        assert(Seq::<Seq<char>>::empty().push(name) == seq![name]);
    }
    lemma_migration_names_concat(head, tail);
    lemma_migration_names_concat(head, new);
    lemma_migration_names_concat(head + new, tail);
    assert(migration_names(head) + Seq::<Seq<char>>::empty() == migration_names(head));
    if unit {
        assert(migration_names(head) + seq![name] == migration_names(head).push(name));
        assert(migration_names(head).push(name) + Seq::<Seq<char>>::empty() == migration_names(
            head,
        ).push(name));
    }
}

/// The first implementation of the migrator trait is the one that no other
/// precedes.
pub proof fn lemma_first_migrator(nodes: Seq<NodeView>, at: int)
    requires
        0 <= at <= nodes.len(),
        forall|k: int| 0 <= k < at ==> !is_migrator(#[trigger] nodes[k]),
        at < nodes.len() ==> is_migrator(nodes[at]),
    ensures
        first_migrator(nodes) == at,
    decreases nodes.len(),
{
    if nodes.len() > 0 && at > 0 {
        assert(!is_migrator(nodes[0]));
        assert forall|k: int| 0 <= k < at - 1 implies !is_migrator(
            #[trigger] nodes.drop_first()[k],
        ) by {
            assert(nodes.drop_first()[k] == nodes[k + 1]);
        };
        lemma_first_migrator(nodes.drop_first(), at - 1);
    }
}

/// The first function of a name is the one that no other of that name
/// precedes.
pub proof fn lemma_first_function(functions: Seq<Option<Seq<char>>>, name: Seq<char>, at: int)
    requires
        0 <= at <= functions.len(),
        forall|k: int| 0 <= k < at ==> #[trigger] functions[k] != Some(name),
        at < functions.len() ==> functions[at] == Some(name),
    ensures
        first_function(functions, name) == at,
    decreases functions.len(),
{
    if functions.len() > 0 && at > 0 {
        assert(functions[0] != Some(name));
        assert forall|k: int| 0 <= k < at - 1 implies #[trigger] functions.drop_first()[k] != Some(
            name,
        ) by {
            assert(functions.drop_first()[k] == functions[k + 1]);
        };
        lemma_first_function(functions.drop_first(), name, at - 1);
    }
}

/// The count of migrator implementations, taken from the front.
proof fn lemma_migrator_count_split(nodes: Seq<NodeView>)
    requires
        nodes.len() > 0,
    ensures
        migrator_count(nodes) == migrator_count(nodes.drop_first()) + if is_migrator(nodes[0]) {
            1nat
        } else {
            0nat
        },
    decreases nodes.len(),
{
    if nodes.len() == 1 {
        assert(nodes.drop_first() == Seq::<NodeView>::empty());
        assert(nodes.drop_last() == Seq::<NodeView>::empty());
    } else {
        lemma_migrator_count_split(nodes.drop_last());
        assert(nodes.drop_last().drop_first() == nodes.drop_first().drop_last());
        assert(nodes.drop_first().last() == nodes.last());
        assert(nodes.drop_last()[0] == nodes[0]);
    }
}

/// Where there is an implementation of the migrator trait, the first one is
/// a node of the outline.
proof fn lemma_first_migrator_exists(nodes: Seq<NodeView>)
    requires
        migrator_count(nodes) > 0,
    ensures
        0 <= first_migrator(nodes) < nodes.len(),
        is_migrator(nodes[first_migrator(nodes)]),
    decreases nodes.len(),
{
    if !is_migrator(nodes[0]) {
        let rest = nodes.drop_first();
        lemma_migrator_count_split(nodes);
        lemma_first_migrator_exists(rest);
        assert(rest[first_migrator(rest)] == nodes[first_migrator(rest) + 1]);
    }
}

/// The first function of a name lies among the members or right past them,
/// and where it lies among them it is a function of that name.
proof fn lemma_first_function_found(functions: Seq<Option<Seq<char>>>, name: Seq<char>)
    ensures
        0 <= first_function(functions, name) <= functions.len(),
        first_function(functions, name) < functions.len() ==> functions[first_function(
            functions,
            name,
        )] == Some(name),
    decreases functions.len(),
{
    if functions.len() > 0 && functions[0] != Some(name) {
        let rest = functions.drop_first();
        lemma_first_function_found(rest, name);
        if first_function(rest, name) < rest.len() {
            assert(rest[first_function(rest, name)] == functions[first_function(rest, name) + 1]);
        }
    }
}

/// A found enumeration function is a function of the expected name, inside
/// a node that implements the migrator trait.
pub proof fn lemma_anchor(nodes: Seq<NodeView>)
    requires
        enumeration_anchor(nodes) is Found,
    ensures
        0 <= enumeration_anchor(nodes)->item < nodes.len(),
        is_migrator(nodes[enumeration_anchor(nodes)->item]),
        0 <= enumeration_anchor(nodes)->member < functions_of(
            nodes[enumeration_anchor(nodes)->item],
        ).len(),
        functions_of(nodes[enumeration_anchor(nodes)->item])[enumeration_anchor(nodes)->member]
            == Some(enumeration_name()),
{
    lemma_first_migrator_exists(nodes);
    lemma_first_function_found(functions_of(nodes[first_migrator(nodes)]), enumeration_name());
}

/// A new node that implements no trait, put at `at`, leaves the count of the
/// migrator implementations as it was and moves the first of them by one
/// where it stood at or behind `at`.
pub proof fn lemma_insert_keeps_migrators(nodes: Seq<NodeView>, at: int, node: NodeView)
    requires
        0 <= at <= nodes.len(),
        !is_migrator(node),
    ensures
        migrator_count(nodes.insert(at, node)) == migrator_count(nodes),
        first_migrator(nodes.insert(at, node)) == if at <= first_migrator(nodes) {
            first_migrator(nodes) + 1
        } else {
            first_migrator(nodes)
        },
    decreases nodes.len(),
{
    let inserted = nodes.insert(at, node);
    if at == nodes.len() {
        assert(inserted.drop_last() == nodes);
    } else {
        assert(inserted.drop_last() == nodes.drop_last().insert(at, node));
        assert(inserted.last() == nodes.last());
        lemma_insert_keeps_migrators(nodes.drop_last(), at, node);
    }
    lemma_insert_moves_migrator(nodes, at, node);
}

/// The place of the first migrator implementation under such an insertion.
proof fn lemma_insert_moves_migrator(nodes: Seq<NodeView>, at: int, node: NodeView)
    requires
        0 <= at <= nodes.len(),
        !is_migrator(node),
    ensures
        first_migrator(nodes.insert(at, node)) == if at <= first_migrator(nodes) {
            first_migrator(nodes) + 1
        } else {
            first_migrator(nodes)
        },
    decreases nodes.len(),
{
    let inserted = nodes.insert(at, node);
    if at == 0 {
        assert(inserted.drop_first() == nodes);
        lemma_first_migrator_bounds(nodes);
    } else {
        assert(inserted.drop_first() == nodes.drop_first().insert(at - 1, node));
        assert(inserted[0] == nodes[0]);
        if !is_migrator(nodes[0]) {
            lemma_insert_moves_migrator(nodes.drop_first(), at - 1, node);
        }
    }
}

/// The first migrator implementation lies among the nodes or right past them.
proof fn lemma_first_migrator_bounds(nodes: Seq<NodeView>)
    ensures
        0 <= first_migrator(nodes) <= nodes.len(),
    decreases nodes.len(),
{
    if nodes.len() > 0 && !is_migrator(nodes[0]) {
        lemma_first_migrator_bounds(nodes.drop_first());
    }
}

/// Declaring a module moves the enumeration function down by one node where
/// the declaration lands above it, and not at all otherwise.
pub proof fn lemma_declared_anchor(nodes: Seq<NodeView>, name: Seq<char>, unit: bool)
    requires
        enumeration_anchor(nodes) is Found,
    ensures
        enumeration_anchor(declared(nodes, name, unit)) == (Anchor::Found {
            item: if insertion_point(nodes) <= enumeration_anchor(nodes)->item {
                enumeration_anchor(nodes)->item + 1
            } else {
                enumeration_anchor(nodes)->item
            },
            member: enumeration_anchor(nodes)->member,
        }),
{
    let at = insertion_point(nodes);
    let node = NodeView::Module { name, unit };
    lemma_insertion_point(nodes);
    lemma_anchor(nodes);
    lemma_insert_keeps_migrators(nodes, at, node);
    let item = first_migrator(nodes);
    let moved = if at <= item {
        item + 1
    } else {
        item
    };
    assert(declared(nodes, name, unit)[moved] == nodes[item]);
}

/// What the rewrite is to do to a document.
pub struct PlanView {
    /// Where the new declaration goes.
    pub index: int,
    /// The node that holds the enumeration function, counted before the new
    /// declaration is in place.
    pub item: int,
    /// The member of that node that is the enumeration function.
    pub member: int,
    /// The expression that becomes the body of the enumeration function.
    pub enumeration: Seq<char>,
}

/// What the rewrite is to do to a document.
#[derive(Debug, PartialEq, Eq)]
pub struct RewritePlan {
    /// Where the new declaration goes.
    pub index: usize,
    /// The node that holds the enumeration function, counted before the new
    /// declaration is in place.
    pub item: usize,
    /// The member of that node that is the enumeration function.
    pub member: usize,
    /// The expression that becomes the body of the enumeration function.
    pub enumeration: String,
}

impl View for RewritePlan {
    type V = PlanView;

    open spec fn view(&self) -> PlanView {
        PlanView {
            index: self.index as int,
            item: self.item as int,
            member: self.member as int,
            enumeration: self.enumeration@,
        }
    }
}

/// The plan of the rewrite that declares `name`, given whether `name` is an
/// identifier and whether it denotes a unit: the declaration goes to the
/// insertion point, and the enumeration function gets the expression that
/// enumerates the units of the outline with the declaration in place. No
/// plan is made for a name that is no identifier, nor where the enumeration
/// function is missing or ambiguous.
pub open spec fn rewrite_plan(
    nodes: Seq<NodeView>,
    name: Seq<char>,
    identifier: bool,
    unit: bool,
) -> Result<PlanView, SyncError> {
    if !identifier {
        Err(SyncError::InvalidName)
    } else {
        match enumeration_anchor(nodes) {
            Anchor::NotFound => Err(SyncError::Structure(StructureFault::NotFound)),
            Anchor::Ambiguous(count) => Err(
                SyncError::Structure(StructureFault::Ambiguous(count as usize)),
            ),
            Anchor::Found { item, member } => Ok(
                PlanView {
                    index: insertion_point(nodes),
                    item,
                    member,
                    enumeration: enumeration_text(migration_names(declared(nodes, name, unit))),
                },
            ),
        }
    }
}

/// Finds where a new module declaration goes.
pub fn insertion_index(outline: &Vec<Node>) -> (index: usize)
    ensures
        index == insertion_point(outline.deep_view()),
{
    let ghost nodes = outline.deep_view();
    let mut end: usize = outline.len();
    proof {
        assert(nodes.take(end as int) == nodes);
    }
    while end > 0
        invariant
            nodes == outline.deep_view(),
            end <= outline.len(),
            insertion_point(nodes) == insertion_point(nodes.take(end as int)),
        decreases end,
    {
        proof {
            let upto = nodes.take(end as int);
            assert(upto.last() == outline[end - 1].deep_view());
            assert(upto.drop_last() == nodes.take(end - 1));
        }
        match &outline[end - 1] {
            Node::Module { .. } => {
                return end;
            },
            _ => {},
        }
        end = end - 1;
    }
    proof {
        assert(nodes.take(0).len() == 0);
    }
    0
}

/// Lists the names of the migration units, in file order.
pub fn migration_list(outline: &Vec<Node>) -> (names: Vec<String>)
    ensures
        names.deep_view() == migration_names(outline.deep_view()),
{
    let ghost nodes = outline.deep_view();
    let mut names: Vec<String> = Vec::new();
    let mut at: usize = 0;
    proof {
        assert(names.deep_view() == Seq::<Seq<char>>::empty());
    }
    while at < outline.len()
        invariant
            nodes == outline.deep_view(),
            at <= outline.len(),
            names.deep_view() == migration_names(nodes.take(at as int)),
        decreases outline.len() - at,
    {
        proof {
            let upto = nodes.take(at + 1);
            assert(upto.last() == outline[at as int].deep_view());
            assert(upto.drop_last() == nodes.take(at as int));
        }
        match &outline[at] {
            Node::Module { name, unit: true } => {
                let ghost before = names.deep_view();
                names.push(name.clone());
                proof {
                    assert(names.deep_view() == before.push(name@));
                }
            },
            _ => {},
        }
        at = at + 1;
    }
    proof {
        assert(nodes.take(at as int) == nodes);
    }
    names
}

/// Whether a node implements the migrator trait.
fn implements_migrator(node: &Node) -> (found: bool)
    ensures
        found == is_migrator(node.deep_view()),
{
    match node {
        Node::Implementation { trait_name, .. } => *trait_name == String::from_str(
            "MigratorTrait",
        ),
        _ => false,
    }
}

/// Looks for the enumeration function.
pub fn locate_enumeration(outline: &Vec<Node>) -> (located: Located)
    ensures
        located@ == enumeration_anchor(outline.deep_view()),
{
    let ghost nodes = outline.deep_view();
    let mut found: usize = 0;
    let mut first: usize = 0;
    let mut at: usize = 0;
    while at < outline.len()
        invariant
            nodes == outline.deep_view(),
            at <= outline.len(),
            found <= at,
            found == migrator_count(nodes.take(at as int)),
            forall|k: int|
                0 <= k < (if found == 0 {
                    at
                } else {
                    first
                }) ==> !is_migrator(#[trigger] nodes[k]),
            found > 0 ==> first < at && is_migrator(nodes[first as int]),
        decreases outline.len() - at,
    {
        proof {
            let upto = nodes.take(at + 1);
            assert(upto.last() == nodes[at as int]);
            assert(upto.drop_last() == nodes.take(at as int));
            assert(nodes[at as int] == outline[at as int].deep_view());
        }
        if implements_migrator(&outline[at]) {
            if found == 0 {
                first = at;
            }
            found = found + 1;
        }
        at = at + 1;
    }
    proof {
        assert(nodes.take(at as int) == nodes);
    }
    if found == 0 {
        return Located::NotFound;
    }
    if found > 1 {
        return Located::Ambiguous(found);
    }
    proof {
        lemma_first_migrator(nodes, first as int);
        assert(nodes[first as int] == outline[first as int].deep_view());
    }
    match &outline[first] {
        Node::Implementation { functions, .. } => {
            let ghost members = functions.deep_view();
            let wanted = String::from_str("migrations");
            let mut member: usize = 0;
            while member < functions.len()
                invariant
                    nodes == outline.deep_view(),
                    migrator_count(nodes) == 1,
                    first_migrator(nodes) == first,
                    members == functions_of(nodes[first as int]),
                    members == functions.deep_view(),
                    wanted@ == enumeration_name(),
                    member <= functions.len(),
                    forall|k: int| 0 <= k < member ==> #[trigger] members[k] != Some(enumeration_name()),
                decreases functions.len() - member,
            {
                proof {
                    assert(members[member as int] == functions[member as int].deep_view());
                }
                let named = match &functions[member] {
                    Some(name) => *name == wanted,
                    None => false,
                };
                if named {
                    proof {
                        lemma_first_function(members, enumeration_name(), member as int);
                    }
                    return Located::Found { item: first, member };
                }
                member = member + 1;
            }
            proof {
                lemma_first_function(members, enumeration_name(), member as int);
            }
            Located::NotFound
        },
        _ => Located::NotFound,
    }
}

/// Builds the expression that enumerates the given units.
pub fn enumeration_source(names: &Vec<String>) -> (text: String)
    ensures
        text@ == enumeration_text(names.deep_view()),
{
    let ghost all = names.deep_view();
    let mut text = String::from_str("vec![");
    let mut done: usize = 0;
    while done < names.len()
        invariant
            done <= names.len(),
            all == names.deep_view(),
            text@ == "vec!["@ + handles_text(all.take(done as int)),
        decreases names.len() - done,
    {
        let ghost before = all.take(done as int);
        let ghost now = all.take(done + 1);
        proof {
            assert(now.drop_last() == before);
            assert(now.last() == names[done as int]@);
        }
        if done > 0 {
            text.append(", ");
        }
        text.append("Box::new(");
        text.append(names[done].as_str());
        text.append("::Migration)");
        proof {
            if done == 0 {
                assert(handles_text(now) == handle_text(now[0]));
                assert(handles_text(before) == Seq::<char>::empty());
            }
            assert(text@ == "vec!["@ + handles_text(now));
        }
        done = done + 1;
    }
    proof {
        assert(all.take(done as int) == all);
    }
    text.append("]");
    text
}

/// Plans the rewrite that declares `name`. `identifier` says whether `name`
/// is an identifier that can name a module, `unit` whether it denotes a
/// migration unit.
pub fn plan_rewrite(outline: &Vec<Node>, name: &str, identifier: bool, unit: bool) -> (plan: Result<
    RewritePlan,
    SyncError,
>)
    ensures
        match rewrite_plan(outline.deep_view(), name@, identifier, unit) {
            Ok(expected) => plan.is_ok() && plan.unwrap()@ == expected,
            Err(error) => plan == Err::<RewritePlan, SyncError>(error),
        },
{
    if !identifier {
        return Err(SyncError::InvalidName);
    }
    let (item, member) = match locate_enumeration(outline) {
        Located::NotFound => {
            return Err(SyncError::Structure(StructureFault::NotFound));
        },
        Located::Ambiguous(count) => {
            return Err(SyncError::Structure(StructureFault::Ambiguous(count)));
        },
        Located::Found { item, member } => (item, member),
    };
    let index: usize = insertion_index(outline);
    let mut names = migration_list(outline);
    if unit {
        let ghost before = names.deep_view();
        names.push(String::from_str(name));
        proof {
            assert(names.deep_view() == before.push(name@));
        }
    }
    proof {
        lemma_declared_names(outline.deep_view(), name@, unit);
    }
    Ok(RewritePlan { index, item, member, enumeration: enumeration_source(&names) })
}

} // verus!
