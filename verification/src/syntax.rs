//! The parsed registry as the rest of the library sees it.
//!
//! The syntax tree itself belongs to the `syn` parser and is opaque here. Its
//! content is described by a [`TreeView`], and every function in this file
//! that touches the tree states its effect on that view. None of these
//! statements is proved: each records what the source of `syn`, `quote` and
//! `proc-macro2` shows of the call it makes.

use vstd::prelude::*;

verus! {

/// `syn::File`, a parsed source file.
#[verifier::external_type_specification]
#[verifier::external_body]
pub struct ExFile(syn::File);

/// `syn::Error`, the parser's error.
#[verifier::external_type_specification]
#[verifier::external_body]
pub struct ExSyntaxError(syn::Error);

/// One member of an implementation block.
pub enum MemberView {
    /// A function: its name, the token text of all of it but the statements
    /// of its block (attributes, visibility, signature), and the token text
    /// of those statements, or `None` where it is declared without a block.
    Function { name: Seq<char>, head: Seq<char>, body: Option<Seq<char>> },
    /// Any other member, by its token text.
    Other { tokens: Seq<char> },
}

/// One top-level node of the file.
pub enum ItemView {
    /// A module declaration: its name and, unless it is the bare `mod name;`,
    /// the token text of the whole declaration.
    Module { name: Seq<char>, decoration: Option<Seq<char>> },
    /// An implementation block: the last segment of the path of the trait it
    /// implements (if it implements one), the token text of all of it but
    /// its members, and its members.
    Implementation { trait_name: Option<Seq<char>>, head: Seq<char>, members: Seq<MemberView> },
    /// Any other node, by its token text.
    Other { tokens: Seq<char> },
}

/// The content of a parsed file: the token text of its inner attributes, then
/// its top-level nodes in file order.
pub struct TreeView {
    pub preamble: Seq<char>,
    pub items: Seq<ItemView>,
}

impl MemberView {
    /// The member's name where it is a function.
    pub open spec fn function_name(self) -> Option<Seq<char>> {
        match self {
            MemberView::Function { name, .. } => Some(name),
            MemberView::Other { .. } => None,
        }
    }

    /// The member with a block of the given statements, where it is a
    /// function; any other member unchanged.
    pub open spec fn with_body(self, body: Seq<char>) -> MemberView {
        match self {
            MemberView::Function { name, head, .. } => MemberView::Function {
                name,
                head,
                body: Some(body),
            },
            MemberView::Other { .. } => self,
        }
    }
}

impl ItemView {
    /// The bare declaration `mod name;`.
    pub open spec fn declaration(name: Seq<char>) -> ItemView {
        ItemView::Module { name, decoration: None }
    }

    /// The node's name where it is a module declaration.
    pub open spec fn module_name(self) -> Option<Seq<char>> {
        match self {
            ItemView::Module { name, .. } => Some(name),
            _ => None,
        }
    }

    /// The trait's name where the node is an implementation of a trait.
    pub open spec fn implemented_trait(self) -> Option<Seq<char>> {
        match self {
            ItemView::Implementation { trait_name, .. } => trait_name,
            _ => None,
        }
    }

    /// The members of an implementation block; no members for any other node.
    pub open spec fn members(self) -> Seq<MemberView> {
        match self {
            ItemView::Implementation { members, .. } => members,
            _ => Seq::empty(),
        }
    }

    /// The node with the body of its member `member` replaced, where the node
    /// is an implementation block; any other node unchanged.
    pub open spec fn with_body(self, member: int, body: Seq<char>) -> ItemView {
        match self {
            ItemView::Implementation { trait_name, head, members } => ItemView::Implementation {
                trait_name,
                head,
                members: members.update(member, members[member].with_body(body)),
            },
            _ => self,
        }
    }
}

/// The content of a syntax tree.
pub uninterp spec fn tree_view(file: syn::File) -> TreeView;

/// What `syn::parse_file` makes of a source text: the content of the tree, or
/// `None` where the text is not valid source.
pub uninterp spec fn parsed_tree(source: Seq<char>) -> Option<TreeView>;

/// What `syn::parse_str::<syn::Ident>` makes of a text: the identifier's own
/// spelling, or `None` where the text is not one identifier.
pub uninterp spec fn parsed_identifier(text: Seq<char>) -> Option<Seq<char>>;

/// What `syn::parse_str::<syn::Expr>` makes of a text: the token text of the
/// expression, or `None` where the text is not one expression.
pub uninterp spec fn parsed_expression(text: Seq<char>) -> Option<Seq<char>>;

/// The token text of a whole tree, as `quote::ToTokens::to_token_stream`
/// followed by `to_string` gives it.
pub uninterp spec fn token_text(tree: TreeView) -> Seq<char>;

/// `text` spells exactly one identifier that may name a module.
pub open spec fn is_identifier(text: Seq<char>) -> bool {
    parsed_identifier(text) == Some(text)
}

/// Calls `syn::parse_file`. The tree's content is the named outcome for this
/// source, and the call fails exactly where that outcome is `None`.
#[verifier::external_body]
pub(crate) fn parse_file(source: &str) -> (parsed: Result<syn::File, syn::Error>)
    ensures
        match parsed {
            Ok(file) => parsed_tree(source@) == Some(tree_view(file)),
            Err(_) => parsed_tree(source@).is_none(),
        },
{
    syn::parse_file(source)
}

/// Reads `len` of the `items` of a `syn::File`: the number of top-level nodes.
#[verifier::external_body]
pub(crate) fn item_count(file: &syn::File) -> (count: usize)
    ensures
        count == tree_view(*file).items.len(),
{
    file.items.len()
}

/// Reads the `ident` of a `syn::Item::Mod`: the name of node `index` where it
/// is a module declaration, `None` for any other node.
#[verifier::external_body]
pub(crate) fn module_name(file: &syn::File, index: usize) -> (name: Option<String>)
    requires
        index < tree_view(*file).items.len(),
    ensures
        name.deep_view() == tree_view(*file).items[index as int].module_name(),
{
    match &file.items[index] {
        syn::Item::Mod(module) => Some(module.ident.to_string()),
        _ => None,
    }
}

/// Reads `trait_` of a `syn::Item::Impl`: the last segment of the implemented
/// trait's path where node `index` implements a trait, `None` otherwise.
#[verifier::external_body]
pub(crate) fn implemented_trait(file: &syn::File, index: usize) -> (name: Option<String>)
    requires
        index < tree_view(*file).items.len(),
    ensures
        name.deep_view() == tree_view(*file).items[index as int].implemented_trait(),
{
    match &file.items[index] {
        syn::Item::Impl(block) => match &block.trait_ {
            Some((_, path, _)) => path.segments.last().map(|segment| segment.ident.to_string()),
            None => None,
        },
        _ => None,
    }
}

/// Reads `len` of the `items` of a `syn::Item::Impl`: the number of members of
/// node `index`, none for a node that is no implementation block.
#[verifier::external_body]
pub(crate) fn member_count(file: &syn::File, index: usize) -> (count: usize)
    requires
        index < tree_view(*file).items.len(),
    ensures
        count == tree_view(*file).items[index as int].members().len(),
{
    match &file.items[index] {
        syn::Item::Impl(block) => block.items.len(),
        _ => 0,
    }
}

/// Reads `sig.ident` of a `syn::ImplItem::Method`: the name of member `member`
/// of node `index` where that member is a function, `None` otherwise.
#[verifier::external_body]
pub(crate) fn function_name(file: &syn::File, index: usize, member: usize) -> (name: Option<
    String,
>)
    requires
        index < tree_view(*file).items.len(),
        member < tree_view(*file).items[index as int].members().len(),
    ensures
        name.deep_view() == tree_view(*file).items[index as int].members()[member as int].function_name(),
{
    match &file.items[index] {
        syn::Item::Impl(block) => match &block.items[member] {
            syn::ImplItem::Method(method) => Some(method.sig.ident.to_string()),
            _ => None,
        },
        _ => None,
    }
}

/// Calls `syn::parse_str::<syn::Ident>` and hands back the spelling of the
/// identifier it found.
#[verifier::external_body]
pub(crate) fn parse_identifier(text: &str) -> (spelling: Option<String>)
    ensures
        spelling.deep_view() == parsed_identifier(text@),
{
    syn::parse_str::<syn::Ident>(text).ok().map(|ident| ident.to_string())
}

/// Calls `Vec::insert` on the `items` of a `syn::File` with a new
/// `syn::ItemMod` that has the given name, no attributes, inherited
/// visibility and no inline content. The new node is the bare declaration of
/// `name`; every other node and the preamble stay as they were.
#[verifier::external_body]
pub(crate) fn insert_declaration(file: &mut syn::File, index: usize, name: &str)
    requires
        index <= tree_view(*old(file)).items.len(),
        is_identifier(name@),
    ensures
        tree_view(*final(file)) == (TreeView {
            preamble: tree_view(*old(file)).preamble,
            items: tree_view(*old(file)).items.insert(index as int, ItemView::declaration(name@)),
        }),
{
    if let Ok(ident) = syn::parse_str::<syn::Ident>(name) {
        let declaration = syn::ItemMod {
            attrs: Vec::new(),
            vis: syn::Visibility::Inherited,
            mod_token: Default::default(),
            ident,
            content: None,
            semi: Some(Default::default()),
        };
        file.items.insert(index, syn::Item::Mod(declaration));
    }
}

/// Calls `syn::parse_str::<syn::Expr>` on `text` and, where that succeeds,
/// assigns a `Vec` that holds the expression alone to `block.stmts` of the
/// `syn::ImplItemMethod` at member `member` of node `index`. Returns whether
/// the text was an expression; where it was not, the tree is unchanged.
#[verifier::external_body]
pub(crate) fn replace_body(file: &mut syn::File, index: usize, member: usize, text: &str) -> (done:
    bool)
    requires
        index < tree_view(*old(file)).items.len(),
        member < tree_view(*old(file)).items[index as int].members().len(),
        tree_view(*old(file)).items[index as int].members()[member as int] is Function,
    ensures
        done == parsed_expression(text@).is_some(),
        done ==> tree_view(*final(file)) == (TreeView {
            preamble: tree_view(*old(file)).preamble,
            items: tree_view(*old(file)).items.update(
                index as int,
                tree_view(*old(file)).items[index as int].with_body(
                    member as int,
                    parsed_expression(text@).unwrap(),
                ),
            ),
        }),
        !done ==> tree_view(*final(file)) == tree_view(*old(file)),
{
    match (syn::parse_str::<syn::Expr>(text), &mut file.items[index]) {
        (Ok(expression), syn::Item::Impl(block)) => match &mut block.items[member] {
            syn::ImplItem::Method(method) => {
                method.block.stmts = vec![syn::Stmt::Expr(expression)];
                true
            },
            _ => false,
        },
        _ => false,
    }
}

/// Calls `quote::ToTokens::to_token_stream` on a `syn::File` and
/// `to_string` on the stream: the token text of the tree.
#[verifier::external_body]
pub(crate) fn render_tokens(file: &syn::File) -> (text: String)
    ensures
        text@ == token_text(tree_view(*file)),
{
    quote::ToTokens::to_token_stream(file).to_string()
}

} // verus!
