//! Declarations as `syn` reads them.

use crate::macros::client;
use crate::macros::client::{ClientSyntaxError, JsonRpcClientImpl, JsonRpcClientImplSyntax};
use crate::macros::service;
use crate::macros::service::{ImplBlock, JsonRpcServiceImpl, ServiceSyntaxError};
use crate::macros::syntax;
use crate::macros::syntax::{
    find_marker, find_string, is_mark, Argument, ArgumentView, AttributeMeta, AttributeMetaView,
    FnSignature, FnSignatureView, Item, ItemView, MethodAttribute, MethodAttributeView, Token,
    TokenView,
};
use crate::text;
use vstd::prelude::*;

verus! {

/// The outside type of impl blocks.
#[verifier::external_type_specification]
#[verifier::external_body]
pub struct ExItemImpl(syn::ItemImpl);

/// The outside type of items of an impl block.
#[verifier::external_type_specification]
#[verifier::external_body]
pub struct ExImplItem(syn::ImplItem);

/// The outside type of items of a trait, which stand in the block of a client too.
#[verifier::external_type_specification]
#[verifier::external_body]
pub struct ExTraitItem(syn::TraitItem);

/// The outside type of attributes.
#[verifier::external_type_specification]
#[verifier::external_body]
pub struct ExAttribute(syn::Attribute);

/// The outside type of trees of tokens.
#[verifier::external_type_specification]
#[verifier::external_body]
pub struct ExTokenTree(proc_macro2::TokenTree);

/// The outside type of literals.
#[verifier::external_type_specification]
#[verifier::external_body]
pub struct ExLiteral(proc_macro2::Literal);

/// The outside type of arguments.
#[verifier::external_type_specification]
#[verifier::external_body]
pub struct ExFnArg(syn::FnArg);

/// The items of an impl block.
pub uninterp spec fn block_parts(block: syn::ItemImpl) -> Seq<syn::ImplItem>;

/// An impl block without its items.
pub uninterp spec fn block_rest(block: syn::ItemImpl) -> syn::ItemImpl;

/// The attributes of an item of an impl block.
pub uninterp spec fn item_attributes(item: syn::ImplItem) -> Seq<syn::Attribute>;

/// An item of an impl block without its attributes.
pub uninterp spec fn item_rest(item: syn::ImplItem) -> syn::ImplItem;

/// What an item of an impl block is.
pub uninterp spec fn impl_item(item: syn::ImplItem) -> ItemView;

/// What an item of a client is.
pub uninterp spec fn trait_item(item: syn::TraitItem) -> ItemView;

/// The identifier that the path of an attribute is, if it is one.
pub uninterp spec fn attribute_path(attr: syn::Attribute) -> Option<Seq<char>>;

/// What stands in an attribute behind its path.
pub uninterp spec fn attribute_trees(attr: syn::Attribute) -> Seq<TreeView>;

/// What a tree of tokens is.
pub uninterp spec fn tree_of(tree: proc_macro2::TokenTree) -> TreeView;

/// The text that a literal is written as.
pub uninterp spec fn literal_text(literal: proc_macro2::Literal) -> Seq<char>;

/// The string that the text of a string literal stands for, as `syn` reads it.
pub uninterp spec fn string_of(literal: Seq<char>) -> Seq<char>;

/// What an argument is.
pub uninterp spec fn argument(arg: syn::FnArg) -> ArgumentView;

/// A tree of tokens, layer by layer. A group that is not delimited stands for what is in it.
pub enum Tree {
    Ident(String),
    Punct(char),
    Literal(proc_macro2::Literal),
    Group { delimited: bool, trees: Vec<proc_macro2::TokenTree> },
}

/// What a tree of tokens is.
pub enum TreeView {
    Ident(Seq<char>),
    Punct(char),
    Literal(Seq<char>),
    Group { delimited: bool, trees: Seq<TreeView> },
}

impl Tree {
    /// What the tree is whose outermost layer this is.
    pub open spec fn view(&self) -> TreeView {
        match *self {
            Tree::Ident(text) => TreeView::Ident(text@),
            Tree::Punct(c) => TreeView::Punct(c),
            Tree::Literal(literal) => TreeView::Literal(literal_text(literal)),
            Tree::Group { delimited, trees } => TreeView::Group {
                delimited,
                trees: trees_of(trees@),
            },
        }
    }
}

/// What trees of tokens are.
pub open spec fn trees_of(trees: Seq<proc_macro2::TokenTree>) -> Seq<TreeView> {
    trees.map_values(|tree: proc_macro2::TokenTree| tree_of(tree))
}

/// The tokens that trees are, with what stands in groups that are not delimited in their place.
pub open spec fn tokens_of(trees: Seq<TreeView>) -> Seq<TokenView>
    decreases trees,
{
    if trees.len() == 0 {
        Seq::empty()
    } else {
        tokens_of(trees.drop_last()) + match trees.last() {
            TreeView::Ident(text) => seq![TokenView::Ident(text)],
            TreeView::Punct(c) => seq![TokenView::Punct(c)],
            TreeView::Literal(text) => seq![TokenView::Literal(text)],
            TreeView::Group { delimited, trees } => if delimited {
                seq![TokenView::Group]
            } else {
                tokens_of(trees)
            },
        }
    }
}

/// The tokens of trees come one behind another: a leaf is one token, a group with brackets is one
/// token too, and a group without brackets is what stands in it.
pub proof fn tokens_come_one_behind_another(front: Seq<TreeView>, tree: TreeView)
    ensures
        tokens_of(Seq::empty()) == Seq::<TokenView>::empty(),
        tree is Ident ==> tokens_of(front.push(tree)) == tokens_of(front).push(
            TokenView::Ident(tree->Ident_0),
        ),
        tree is Punct ==> tokens_of(front.push(tree)) == tokens_of(front).push(
            TokenView::Punct(tree->Punct_0),
        ),
        tree is Literal ==> tokens_of(front.push(tree)) == tokens_of(front).push(
            TokenView::Literal(tree->Literal_0),
        ),
        tree is Group && tree->delimited ==> tokens_of(front.push(tree)) == tokens_of(front).push(
            TokenView::Group,
        ),
        tree is Group && !tree->delimited ==> tokens_of(front.push(tree)) == tokens_of(front)
            + tokens_of(tree->trees),
{
    assert(front.push(tree).drop_last() =~= front);
}

/// What is written in an attribute with the given path; it is read where the path marks a method
/// call or a notification.
pub open spec fn meta_of(path: Option<Seq<char>>, trees: Seq<TreeView>) -> AttributeMetaView {
    let tokens = tokens_of(trees);
    if syntax::marks(path) {
        syntax::meta_from(
            tokens,
            match syntax::string_literal(tokens) {
                Some(literal) => Some(string_of(literal)),
                None => None,
            },
        )
    } else {
        AttributeMetaView::Other
    }
}

/// An attribute named `method` or `notification` gives a name exactly where its tokens are an equals
/// sign and a string: the name is what the string stands for. Of any other nothing is read.
pub proof fn marks_give_their_string(path: Option<Seq<char>>, trees: Seq<TreeView>, literal: Seq<char>)
    ensures
        path != Some("method"@) && path != Some("notification"@) ==> meta_of(path, trees) is Other,
        (path == Some("method"@) || path == Some("notification"@)) && tokens_of(trees) == seq![
            TokenView::Punct('='),
            TokenView::Literal(literal),
        ] && literal.len() > 0 && (literal[0] == '"' || literal[0] == 'r') ==> meta_of(path, trees)
            == AttributeMetaView::NameString(string_of(literal)),
        meta_of(path, trees) matches AttributeMetaView::NameString(name) ==> {
            let tokens = tokens_of(trees);
            &&& tokens.len() == 2
            &&& tokens[0] == TokenView::Punct('=')
            &&& tokens[1] is Literal
            &&& name == string_of(tokens[1]->Literal_0)
        },
{
    let tokens = tokens_of(trees);
    let string = match syntax::string_literal(tokens) {
        Some(literal) => Some(string_of(literal)),
        None => None,
    };
    syntax::names_are_strings_behind_an_equals_sign(tokens, string, literal);
}

/// A method, with its attributes and its arguments as they were read.
pub struct MethodParts {
    pub attrs: Vec<syn::Attribute>,
    pub ident: String,
    pub asyncness: bool,
    pub inputs: Vec<syn::FnArg>,
    pub output: bool,
}

/// What an attribute is.
pub open spec fn attribute(attr: syn::Attribute) -> MethodAttributeView {
    MethodAttributeView {
        path: attribute_path(attr),
        meta: meta_of(attribute_path(attr), attribute_trees(attr)),
    }
}

/// What the item with the given parts is.
pub open spec fn item_of(parts: MethodParts) -> ItemView {
    ItemView::Method {
        attrs: parts.attrs@.map_values(|attr: syn::Attribute| attribute(attr)),
        sig: FnSignatureView {
            ident: parts.ident@,
            asyncness: parts.asyncness,
            inputs: parts.inputs@.map_values(|arg: syn::FnArg| argument(arg)),
            output: parts.output,
        },
    }
}

/// What the item with the given parts is; without parts it is no method.
pub open spec fn item_or_other(parts: Option<MethodParts>) -> ItemView {
    match parts {
        Some(parts) => item_of(parts),
        None => ItemView::Other,
    }
}

/// What the items of an impl block are, one by one.
pub open spec fn impl_items(items: Seq<syn::ImplItem>) -> Seq<ItemView> {
    items.map_values(|item: syn::ImplItem| impl_item(item))
}

/// What the items of an impl block are.
pub open spec fn block_items(block: syn::ItemImpl) -> Seq<ItemView> {
    impl_items(block_parts(block))
}

/// One attribute was taken away from an item, and nothing else of it was changed.
pub open spec fn attribute_removed(before: syn::ImplItem, after: syn::ImplItem, index: int) -> bool {
    &&& item_rest(after) == item_rest(before)
    &&& item_attributes(after) == item_attributes(before).remove(index)
    &&& impl_item(after) == without_attribute(impl_item(before), index)
}

/// The first attribute that marks an item was taken away, and nothing else of it was changed; an
/// item without a mark is the same.
pub open spec fn unmarked(before: syn::ImplItem, after: syn::ImplItem) -> bool {
    match impl_item(before) {
        ItemView::Method { attrs, .. } => match syntax::marker(attrs) {
            Some(index) => attribute_removed(before, after, index),
            None => after == before,
        },
        ItemView::Other => after == before,
    }
}

/// Where the mark of an item is taken away, its other attributes stay, in their order, and so does all
/// else of it.
pub proof fn only_the_mark_is_taken_away(before: syn::ImplItem, after: syn::ImplItem)
    requires
        unmarked(before, after),
    ensures
        item_rest(after) == item_rest(before),
        impl_item(after) == syntax::without_marker(impl_item(before)),
        syntax::mark_of(impl_item(before)) is None ==> after == before,
        syntax::mark_of(impl_item(before)) is Some ==> item_attributes(after) == item_attributes(
            before,
        ).remove(syntax::marker(impl_item(before)->attrs)->0),
{
}

/// The first attribute that marks each item of a block was taken away, and nothing else of the
/// block was changed.
pub open spec fn block_unmarked(before: syn::ItemImpl, after: syn::ItemImpl) -> bool {
    &&& block_rest(after) == block_rest(before)
    &&& block_parts(after).len() == block_parts(before).len()
    &&& forall|i: int|
        #![trigger block_parts(after)[i]]
        0 <= i < block_parts(after).len() ==> unmarked(block_parts(before)[i], block_parts(after)[i])
}

/// What the items of a client are, one by one.
pub open spec fn trait_items(items: Seq<syn::TraitItem>) -> Seq<ItemView> {
    items.map_values(|item: syn::TraitItem| trait_item(item))
}

/// The items of a `syn::ItemImpl`.
#[verifier::external_body]
fn take_items(block: &syn::ItemImpl) -> (items: Vec<syn::ImplItem>)
    ensures
        items@ == block_parts(*block),
{
    block.items.clone()
}

/// Tells the methods among the variants of `syn::ImplItem` apart, with the attributes and the
/// signature of each.
#[verifier::external_body]
fn take_impl_item(item: &syn::ImplItem) -> (parts: Option<MethodParts>)
    ensures
        item_or_other(parts) == impl_item(*item),
        parts is Some ==> parts->0.attrs@ == item_attributes(*item),
{
    match item {
        syn::ImplItem::Method(method) => Some(MethodParts {
            attrs: method.attrs.clone(),
            ident: method.sig.ident.to_string(),
            asyncness: method.sig.asyncness.is_some(),
            inputs: method.sig.inputs.iter().cloned().collect(),
            output: matches!(method.sig.output, syn::ReturnType::Type(..)),
        }),
        _ => None,
    }
}

/// Tells the methods among the variants of `syn::TraitItem` apart, with the attributes and the
/// signature of each.
#[verifier::external_body]
fn take_trait_item(item: &syn::TraitItem) -> (parts: Option<MethodParts>)
    ensures
        item_or_other(parts) == trait_item(*item),
{
    match item {
        syn::TraitItem::Method(method) => Some(MethodParts {
            attrs: method.attrs.clone(),
            ident: method.sig.ident.to_string(),
            asyncness: method.sig.asyncness.is_some(),
            inputs: method.sig.inputs.iter().cloned().collect(),
            output: matches!(method.sig.output, syn::ReturnType::Type(..)),
        }),
        _ => None,
    }
}

/// `syn::Path::get_ident` on the path of an attribute: the identifier that the path is, where it
/// is a single one.
#[verifier::external_body]
fn take_path(attr: &syn::Attribute) -> (path: Option<String>)
    ensures
        text::text_option_view(path) == attribute_path(*attr),
{
    attr.path.get_ident().map(|ident| ident.to_string())
}

/// The trees of tokens in the field `tokens` of a `syn::Attribute`.
#[verifier::external_body]
fn take_trees(attr: &syn::Attribute) -> (trees: Vec<proc_macro2::TokenTree>)
    ensures
        trees_of(trees@) == attribute_trees(*attr),
{
    attr.tokens.clone().into_iter().collect()
}

/// Tells the variants of `proc_macro2::TokenTree` apart, with the text of an identifier, the
/// character of a punctuation, and the trees in a group and whether it is delimited.
#[verifier::external_body]
fn take_tree(tree: proc_macro2::TokenTree) -> (layer: Tree)
    ensures
        layer@ == tree_of(tree),
{
    match tree {
        proc_macro2::TokenTree::Ident(ident) => Tree::Ident(ident.to_string()),
        proc_macro2::TokenTree::Punct(punct) => Tree::Punct(punct.as_char()),
        proc_macro2::TokenTree::Literal(literal) => Tree::Literal(literal),
        proc_macro2::TokenTree::Group(group) => Tree::Group {
            delimited: !matches!(group.delimiter(), proc_macro2::Delimiter::None),
            trees: group.stream().into_iter().collect(),
        },
    }
}

/// `Display` of a `proc_macro2::Literal`: the text that it is written as.
#[verifier::external_body]
fn take_text(literal: &proc_macro2::Literal) -> (text: String)
    ensures
        text@ == literal_text(*literal),
{
    literal.to_string()
}

/// `syn::Lit::new`, and `syn::LitStr::value` on what it gives: a literal whose text begins as that
/// of a string literal does is a string. Which one depends on the text alone. There are literals
/// that begin otherwise and on which `syn::Lit::new` does not return.
#[verifier::external_body]
fn read_string(literal: &proc_macro2::Literal) -> (string: Option<String>)
    requires
        syntax::is_string(literal_text(*literal)),
    ensures
        text::text_option_view(string) == Some(string_of(literal_text(*literal))),
{
    match syn::Lit::new(literal.clone()) {
        syn::Lit::Str(text) => Some(text.value()),
        _ => None,
    }
}

/// Tells the variants of `syn::FnArg` apart, with the identifier of an argument where its pattern
/// is one.
#[verifier::external_body]
fn take_argument(arg: &syn::FnArg) -> (plain: Argument)
    ensures
        plain@ == argument(*arg),
{
    match arg {
        syn::FnArg::Receiver(receiver) => Argument::Receiver {
            reference: receiver.reference.is_some(),
            mutability: receiver.mutability.is_some(),
        },
        syn::FnArg::Typed(typed) => match &*typed.pat {
            syn::Pat::Ident(pat) => Argument::Typed { ident: Some(pat.ident.to_string()) },
            _ => Argument::Typed { ident: None },
        },
    }
}

/// `Vec::remove` on the attributes of a method of a `syn::ItemImpl`: one attribute is taken away, and
/// nothing else changes, neither of the method nor of the other items nor of the rest of the block.
#[verifier::external_body]
fn remove_attribute(block: &mut syn::ItemImpl, item: usize, index: usize)
    requires
        item < block_items(*old(block)).len(),
        block_items(*old(block))[item as int] is Method,
        index < block_items(*old(block))[item as int]->attrs.len(),
    ensures
        block_rest(*final(block)) == block_rest(*old(block)),
        block_parts(*final(block)).len() == block_parts(*old(block)).len(),
        forall|i: int|
            #![trigger block_parts(*final(block))[i]]
            0 <= i < block_parts(*final(block)).len() && i != item ==> block_parts(
                *final(block),
            )[i] == block_parts(*old(block))[i],
        item_rest(block_parts(*final(block))[item as int]) == item_rest(
            block_parts(*old(block))[item as int],
        ),
        item_attributes(block_parts(*final(block))[item as int]) == item_attributes(
            block_parts(*old(block))[item as int],
        ).remove(index as int),
        impl_item(block_parts(*final(block))[item as int]) == without_attribute(
            impl_item(block_parts(*old(block))[item as int]),
            index as int,
        ),
{
    if let syn::ImplItem::Method(method) = &mut block.items[item] {
        method.attrs.remove(index);
    }
}

/// The item without one of its attributes.
pub open spec fn without_attribute(item: ItemView, index: int) -> ItemView {
    match item {
        ItemView::Method { attrs, sig } => ItemView::Method { attrs: attrs.remove(index), sig },
        ItemView::Other => item,
    }
}

/// A token that is no group, or a group that is delimited.
enum Leaf {
    Ident(String),
    Punct(char),
    Literal(proc_macro2::Literal),
    Group,
}

impl Leaf {
    /// What the token is.
    spec fn view(&self) -> TokenView {
        match *self {
            Leaf::Ident(text) => TokenView::Ident(text@),
            Leaf::Punct(c) => TokenView::Punct(c),
            Leaf::Literal(literal) => TokenView::Literal(literal_text(literal)),
            Leaf::Group => TokenView::Group,
        }
    }
}

/// What tokens are.
spec fn leaves_view(leaves: Seq<Leaf>) -> Seq<TokenView> {
    leaves.map_values(|leaf: Leaf| leaf@)
}

/// Lays out the tokens that trees are.
fn take_leaves(trees: Vec<proc_macro2::TokenTree>) -> (leaves: Vec<Leaf>)
    ensures
        leaves_view(leaves@) == tokens_of(trees_of(trees@)),
    decreases trees_of(trees@),
{
    let ghost all = trees_of(trees@);
    let mut leaves: Vec<Leaf> = Vec::new();
    for tree in rest: trees
        invariant
            rest.seq() == trees@,
            all == trees_of(trees@),
            leaves_view(leaves@) == tokens_of(all.take(rest.index() as int)),
    {
        let ghost n = rest.index() as int;
        assert(tree == trees@[n]);
        assert(all.take(n + 1).drop_last() =~= all.take(n));
        assert(all.take(n + 1).last() == tree_of(tree));
        match take_tree(tree) {
            Tree::Ident(text) => leaves.push(Leaf::Ident(text)),
            Tree::Punct(c) => leaves.push(Leaf::Punct(c)),
            Tree::Literal(literal) => leaves.push(Leaf::Literal(literal)),
            Tree::Group { delimited, trees: inner } => if delimited {
                leaves.push(Leaf::Group);
            } else {
                assert(all[n]->Group_trees == trees_of(inner@));
                assert(decreases_to!(all => all[n]));
                assert(decreases_to!(all[n] => all[n]->Group_trees));
                let mut inner_leaves = take_leaves(inner);
                leaves.append(&mut inner_leaves);
            },
        }
        assert(leaves_view(leaves@) =~= tokens_of(all.take(n + 1)));
    }
    assert(all.take(all.len() as int) =~= all);
    leaves
}

/// Takes tokens over as plain tokens.
fn plain_tokens(leaves: &Vec<Leaf>) -> (tokens: Vec<Token>)
    ensures
        syntax::tokens_view(tokens@) == leaves_view(leaves@),
{
    let mut tokens: Vec<Token> = Vec::with_capacity(leaves.len());
    for i in 0..leaves.len()
        invariant
            tokens@.len() == i,
            forall|k: int| #![trigger tokens@[k]] 0 <= k < i ==> tokens@[k]@ == leaves@[k]@,
    {
        tokens.push(
            match &leaves[i] {
                Leaf::Ident(text) => Token::Ident(text.clone()),
                Leaf::Punct(c) => Token::Punct(*c),
                Leaf::Literal(literal) => Token::Literal(take_text(literal)),
                Leaf::Group => Token::Group,
            },
        );
    }
    assert(syntax::tokens_view(tokens@) =~= leaves_view(leaves@));
    tokens
}

/// Reads what is written in an attribute that marks a method call or a notification.
fn read_meta(attr: &syn::Attribute) -> (meta: AttributeMeta)
    requires
        syntax::marks(attribute_path(*attr)),
    ensures
        meta@ == attribute(*attr).meta,
{
    let leaves = take_leaves(take_trees(attr));
    let tokens = plain_tokens(&leaves);
    if find_string(&tokens).is_some() {
        assert(syntax::tokens_view(tokens@)[1] == leaves@[1]@);
        match &leaves[1] {
            Leaf::Literal(literal) => {
                return AttributeMeta::from_tokens(&tokens, read_string(literal));
            },
            _ => {},
        }
    }
    AttributeMeta::from_tokens(&tokens, None)
}

/// Takes an attribute over as a plain attribute.
fn plain_attribute(attr: &syn::Attribute) -> (plain: MethodAttribute)
    ensures
        plain@ == attribute(*attr),
{
    let path = take_path(attr);
    let meta = if is_mark(&path) {
        read_meta(attr)
    } else {
        AttributeMeta::Other
    };
    MethodAttribute { path, meta }
}

/// Takes a method over as a plain item.
fn plain_method(parts: MethodParts) -> (item: Item)
    ensures
        item@ == item_of(parts),
{
    let mut attrs: Vec<MethodAttribute> = Vec::with_capacity(parts.attrs.len());
    for i in 0..parts.attrs.len()
        invariant
            attrs@.len() == i,
            forall|k: int|
                #![trigger attrs@[k]]
                0 <= k < i ==> attrs@[k]@ == attribute(parts.attrs@[k]),
    {
        attrs.push(plain_attribute(&parts.attrs[i]));
    }
    let mut inputs: Vec<Argument> = Vec::with_capacity(parts.inputs.len());
    for i in 0..parts.inputs.len()
        invariant
            inputs@.len() == i,
            forall|k: int|
                #![trigger inputs@[k]]
                0 <= k < i ==> inputs@[k]@ == argument(parts.inputs@[k]),
    {
        inputs.push(take_argument(&parts.inputs[i]));
    }
    assert(syntax::attrs_view(attrs@) =~= item_of(parts)->attrs);
    assert(syntax::args_view(inputs@) =~= item_of(parts)->sig.inputs);
    Item::Method {
        attrs,
        sig: FnSignature {
            ident: parts.ident,
            asyncness: parts.asyncness,
            inputs,
            output: parts.output,
        },
    }
}

/// Takes the items of an impl block over as plain items.
pub fn plain_impl_items(block: &syn::ItemImpl) -> (items: Vec<Item>)
    ensures
        syntax::items_view(items@) == block_items(*block),
{
    let taken = take_items(block);
    let mut items: Vec<Item> = Vec::with_capacity(taken.len());
    for i in 0..taken.len()
        invariant
            items@.len() == i,
            forall|k: int|
                #![trigger items@[k]]
                0 <= k < i ==> items@[k]@ == impl_item(taken@[k]),
    {
        let item = match take_impl_item(&taken[i]) {
            Some(parts) => plain_method(parts),
            None => Item::Other,
        };
        items.push(item);
    }
    assert(syntax::items_view(items@) =~= impl_items(taken@));
    items
}

/// Takes the items of a client over as plain items.
pub fn plain_trait_items(taken: &Vec<syn::TraitItem>) -> (items: Vec<Item>)
    ensures
        syntax::items_view(items@) == trait_items(taken@),
{
    let mut items: Vec<Item> = Vec::with_capacity(taken.len());
    for i in 0..taken.len()
        invariant
            items@.len() == i,
            forall|k: int|
                #![trigger items@[k]]
                0 <= k < i ==> items@[k]@ == trait_item(taken@[k]),
    {
        let item = match take_trait_item(&taken[i]) {
            Some(parts) => plain_method(parts),
            None => Item::Other,
        };
        items.push(item);
    }
    assert(syntax::items_view(items@) =~= trait_items(taken@));
    items
}

impl JsonRpcServiceImpl {
    /// Reads the service that an impl block declares. The attributes that mark its methods are
    /// taken away, unless the declaration is wrong; nothing else of the block is changed.
    pub fn parse_item_impl(block: &mut syn::ItemImpl) -> (read: Result<
        JsonRpcServiceImpl,
        ServiceSyntaxError,
    >)
        ensures
            service::service_read(read) == service::service_from_items(
                block_items(*old(block)),
                block_items(*old(block)).len(),
            ),
            block_items(*final(block)) == if read is Ok {
                block_items(*old(block)).map_values(
                    |item: ItemView| syntax::without_marker(item),
                )
            } else {
                block_items(*old(block))
            },
            read is Ok ==> block_unmarked(*old(block), *final(block)),
            read is Err ==> *final(block) == *old(block),
    {
        let ghost parts = block_parts(*block);
        let ghost before = block_items(*block);
        let items = plain_impl_items(&*block);
        let mut markers: Vec<Option<usize>> = Vec::with_capacity(items.len());
        for i in 0..items.len()
            invariant
                markers@.len() == i,
                forall|k: int|
                    #![trigger markers@[k]]
                    0 <= k < i ==> match items@[k]@ {
                        ItemView::Method { attrs, .. } => match markers@[k] {
                            Some(index) => syntax::marker(attrs) == Some(index as int) && index
                                < attrs.len(),
                            None => syntax::marker(attrs) is None,
                        },
                        ItemView::Other => markers@[k] is None,
                    },
        {
            let marker = match &items[i] {
                Item::Method { attrs, .. } => find_marker(attrs),
                Item::Other => None,
            };
            markers.push(marker);
        }
        let len: usize = items.len();
        let mut item_impl = ImplBlock { items };
        let service = match JsonRpcServiceImpl::parse_impl(&mut item_impl) {
            Ok(service) => service,
            Err(error) => return Err(error),
        };
        for i in 0..len
            invariant
                before == block_items(*old(block)),
                before.len() == len,
                markers@.len() == len,
                forall|k: int|
                    #![trigger markers@[k]]
                    0 <= k < len ==> match before[k] {
                        ItemView::Method { attrs, .. } => match markers@[k] {
                            Some(index) => syntax::marker(attrs) == Some(index as int) && index
                                < attrs.len(),
                            None => syntax::marker(attrs) is None,
                        },
                        ItemView::Other => markers@[k] is None,
                    },
                before == impl_items(parts),
                block_rest(*block) == block_rest(*old(block)),
                block_parts(*block).len() == len,
                forall|k: int|
                    #![trigger block_parts(*block)[k]]
                    0 <= k < i ==> unmarked(parts[k], block_parts(*block)[k]),
                forall|k: int|
                    #![trigger block_parts(*block)[k]]
                    i <= k < len ==> block_parts(*block)[k] == parts[k],
        {
            let ghost marked = block_parts(*block);
            assert(marked[i as int] == parts[i as int]);
            assert(before[i as int] == impl_item(parts[i as int]));
            match markers[i] {
                Some(index) => remove_attribute(block, i, index),
                None => {},
            }
            assert forall|k: int|
                #![trigger block_parts(*block)[k]]
                0 <= k < len && k != i implies block_parts(*block)[k] == marked[k] by {}
        }
        assert forall|k: int| #![trigger block_parts(*block)[k]] 0 <= k < len implies impl_item(
            block_parts(*block)[k],
        ) == syntax::without_marker(before[k]) by {
            assert(unmarked(parts[k], block_parts(*block)[k]));
        }
        assert(block_items(*block) =~= before.map_values(
            |item: ItemView| syntax::without_marker(item),
        ));
        Ok(service)
    }
}

impl JsonRpcClientImpl {
    /// Reads the client that is declared under a name by a block of items.
    pub fn parse_items(ident: String, items: &Vec<syn::TraitItem>) -> (read: Result<
        JsonRpcClientImpl,
        ClientSyntaxError,
    >)
        ensures
            client::client_read(read) == client::client_from_items(
                ident@,
                trait_items(items@),
                items@.len(),
            ),
    {
        let plain = plain_trait_items(items);
        assert(syntax::items_view(plain@).len() == trait_items(items@).len());
        JsonRpcClientImpl::parse_client_syntax(JsonRpcClientImplSyntax { ident, items: plain })
    }
}

} // verus!
