//! Declarations, as far as they decide anything: types stand where they stand in the source and
//! are found again by their index.

use crate::sequences;
use crate::text;
use crate::text::text_eq;
use vstd::prelude::*;

verus! {

/// What is written in an attribute.
#[derive(Debug, PartialEq)]
pub enum AttributeMeta {
    /// A name and a string, as in `#[method = "name"]`.
    NameString(String),
    /// A name and something else, as in `#[method = 7]`.
    NameOther,
    /// Anything else, as in `#[method]`. What is written in an attribute that marks nothing is not
    /// read, and stands as this too.
    Other,
}

/// What an `AttributeMeta` is.
pub enum AttributeMetaView {
    NameString(Seq<char>),
    NameOther,
    Other,
}

/// A token of an attribute, behind its path. What stands in brackets is one token.
#[derive(Debug, PartialEq)]
pub enum Token {
    Ident(String),
    Punct(char),
    Literal(String),
    Group,
}

/// What a `Token` is.
pub enum TokenView {
    Ident(Seq<char>),
    Punct(char),
    Literal(Seq<char>),
    Group,
}

/// An attribute of a method. The path is there where it is a single identifier.
#[derive(Debug, PartialEq)]
pub struct MethodAttribute {
    pub path: Option<String>,
    pub meta: AttributeMeta,
}

/// What a `MethodAttribute` is.
pub struct MethodAttributeView {
    pub path: Option<Seq<char>>,
    pub meta: AttributeMetaView,
}

/// An argument of a method. The identifier is there where the pattern is one.
#[derive(Debug, PartialEq)]
pub enum Argument {
    Receiver { reference: bool, mutability: bool },
    Typed { ident: Option<String> },
}

/// What an `Argument` is.
pub enum ArgumentView {
    Receiver { reference: bool, mutability: bool },
    Typed { ident: Option<Seq<char>> },
}

/// The signature of a method.
#[derive(Debug, PartialEq)]
pub struct FnSignature {
    pub ident: String,
    pub asyncness: bool,
    pub inputs: Vec<Argument>,
    pub output: bool,
}

/// What a `FnSignature` is.
pub struct FnSignatureView {
    pub ident: Seq<char>,
    pub asyncness: bool,
    pub inputs: Seq<ArgumentView>,
    pub output: bool,
}

/// An item of a declaration: a method, or something else.
#[derive(Debug, PartialEq)]
pub enum Item {
    Method { attrs: Vec<MethodAttribute>, sig: FnSignature },
    Other,
}

/// What an `Item` is.
pub enum ItemView {
    Method { attrs: Seq<MethodAttributeView>, sig: FnSignatureView },
    Other,
}

/// A parameter: its name, and its index among the arguments.
#[derive(Debug, PartialEq)]
pub struct Param {
    pub name: String,
    pub position: usize,
}

/// What a `Param` is.
pub struct ParamView {
    pub name: Seq<char>,
    pub position: nat,
}

impl AttributeMeta {
    /// What is written.
    pub open spec fn view(&self) -> AttributeMetaView {
        match *self {
            AttributeMeta::NameString(text) => AttributeMetaView::NameString(text@),
            AttributeMeta::NameOther => AttributeMetaView::NameOther,
            AttributeMeta::Other => AttributeMetaView::Other,
        }
    }
}

impl Token {
    /// What the token is.
    pub open spec fn view(&self) -> TokenView {
        match *self {
            Token::Ident(text) => TokenView::Ident(text@),
            Token::Punct(c) => TokenView::Punct(c),
            Token::Literal(text) => TokenView::Literal(text@),
            Token::Group => TokenView::Group,
        }
    }
}

impl MethodAttribute {
    /// What the attribute is.
    pub open spec fn view(&self) -> MethodAttributeView {
        MethodAttributeView { path: text::text_option_view(self.path), meta: self.meta@ }
    }
}

impl Argument {
    /// What the argument is.
    pub open spec fn view(&self) -> ArgumentView {
        match *self {
            Argument::Receiver { reference, mutability } => ArgumentView::Receiver {
                reference,
                mutability,
            },
            Argument::Typed { ident } => ArgumentView::Typed {
                ident: text::text_option_view(ident),
            },
        }
    }
}

impl FnSignature {
    /// What the signature is.
    pub open spec fn view(&self) -> FnSignatureView {
        FnSignatureView {
            ident: self.ident@,
            asyncness: self.asyncness,
            inputs: args_view(self.inputs@),
            output: self.output,
        }
    }
}

impl Item {
    /// What the item is.
    pub open spec fn view(&self) -> ItemView {
        match *self {
            Item::Method { attrs, sig } => ItemView::Method {
                attrs: attrs_view(attrs@),
                sig: sig@,
            },
            Item::Other => ItemView::Other,
        }
    }
}

impl Param {
    /// What the parameter is.
    pub open spec fn view(&self) -> ParamView {
        ParamView { name: self.name@, position: self.position as nat }
    }
}

/// What arguments are.
pub open spec fn args_view(args: Seq<Argument>) -> Seq<ArgumentView> {
    args.map_values(|arg: Argument| arg@)
}

/// What tokens are.
pub open spec fn tokens_view(tokens: Seq<Token>) -> Seq<TokenView> {
    tokens.map_values(|token: Token| token@)
}

/// What attributes are.
pub open spec fn attrs_view(attrs: Seq<MethodAttribute>) -> Seq<MethodAttributeView> {
    attrs.map_values(|attr: MethodAttribute| attr@)
}

/// What items are.
pub open spec fn items_view(items: Seq<Item>) -> Seq<ItemView> {
    items.map_values(|item: Item| item@)
}

/// What parameters are.
pub open spec fn params_view(params: Seq<Param>) -> Seq<ParamView> {
    params.map_values(|param: Param| param@)
}

/// The literals that are strings begin with a quote, or with `r` where they are raw.
pub open spec fn is_string(literal: Seq<char>) -> bool {
    literal.len() > 0 && (literal[0] == '"' || literal[0] == 'r')
}

/// The string literal, if the tokens are an equals sign and a string literal.
pub open spec fn string_literal(tokens: Seq<TokenView>) -> Option<Seq<char>> {
    if tokens.len() == 2 && tokens[0] == TokenView::Punct('=') {
        match tokens[1] {
            TokenView::Literal(literal) => if is_string(literal) {
                Some(literal)
            } else {
                None
            },
            _ => None,
        }
    } else {
        None
    }
}

/// What is written in an attribute, going by its tokens and by the string that `string_literal`
/// stands for.
pub open spec fn meta_from(tokens: Seq<TokenView>, string: Option<Seq<char>>) -> AttributeMetaView {
    if string_literal(tokens) is Some && string is Some {
        AttributeMetaView::NameString(string->0)
    } else if tokens.len() > 0 && tokens[0] == TokenView::Punct('=') {
        AttributeMetaView::NameOther
    } else {
        AttributeMetaView::Other
    }
}

/// An attribute gives a name exactly where it is an equals sign and a literal that begins with a
/// quote or with `r`, and what the literal stands for is known: the name is that. An attribute that
/// begins with an equals sign and gives no name is told apart from any other.
pub proof fn names_are_strings_behind_an_equals_sign(
    tokens: Seq<TokenView>,
    string: Option<Seq<char>>,
    literal: Seq<char>,
)
    ensures
        tokens == seq![TokenView::Punct('='), TokenView::Literal(literal)] && literal.len() > 0 && (
        literal[0] == '"' || literal[0] == 'r') && string is Some ==> meta_from(tokens, string)
            == AttributeMetaView::NameString(string->0),
        meta_from(tokens, string) is NameString ==> {
            &&& string == Some(meta_from(tokens, string)->NameString_0)
            &&& tokens.len() == 2
            &&& tokens[0] == TokenView::Punct('=')
            &&& tokens[1] is Literal
            &&& tokens[1]->Literal_0.len() > 0
            &&& tokens[1]->Literal_0[0] == '"' || tokens[1]->Literal_0[0] == 'r'
        },
        meta_from(tokens, string) is Other <==> tokens.len() == 0 || tokens[0]
            != TokenView::Punct('='),
{
}

/// Whether a literal is a string.
fn begins_string(literal: &str) -> (string: bool)
    ensures
        string == is_string(literal@),
{
    match literal.chars().next() {
        Some(c) => c == '"' || c == 'r',
        None => false,
    }
}

/// Finds the string literal, if the tokens are an equals sign and a string literal.
pub fn find_string(tokens: &Vec<Token>) -> (literal: Option<String>)
    ensures
        text::text_option_view(literal) == string_literal(tokens_view(tokens@)),
{
    if tokens.len() != 2 {
        return None;
    }
    assert(tokens_view(tokens@)[0] == tokens@[0]@);
    assert(tokens_view(tokens@)[1] == tokens@[1]@);
    match (&tokens[0], &tokens[1]) {
        (Token::Punct('='), Token::Literal(literal)) => if begins_string(literal.as_str()) {
            Some(literal.clone())
        } else {
            None
        },
        _ => None,
    }
}

impl AttributeMeta {
    /// Tells what is written in an attribute, going by its tokens and by the string that its
    /// string literal stands for.
    pub fn from_tokens(tokens: &Vec<Token>, string: Option<String>) -> (meta: AttributeMeta)
        ensures
            meta@ == meta_from(tokens_view(tokens@), text::text_option_view(string)),
    {
        if tokens.len() > 0 {
            assert(tokens_view(tokens@)[0] == tokens@[0]@);
        }
        let found = find_string(tokens).is_some();
        match string {
            Some(string) => if found {
                return AttributeMeta::NameString(string);
            },
            None => {},
        }
        if tokens.len() == 0 {
            return AttributeMeta::Other;
        }
        match &tokens[0] {
            Token::Punct('=') => AttributeMeta::NameOther,
            _ => AttributeMeta::Other,
        }
    }
}

/// The paths of the attributes that mark a method call or a notification.
pub open spec fn marks(path: Option<Seq<char>>) -> bool {
    path == Some("method"@) || path == Some("notification"@)
}

/// The attributes that mark a method call or a notification.
pub open spec fn is_marker() -> spec_fn(MethodAttributeView) -> bool {
    |attr: MethodAttributeView| marks(attr.path)
}

/// The attribute that marks an item.
pub open spec fn mark_of(item: ItemView) -> Option<MethodAttributeView> {
    match item {
        ItemView::Method { attrs, .. } => match marker(attrs) {
            Some(index) => Some(attrs[index]),
            None => None,
        },
        ItemView::Other => None,
    }
}

/// Whether a path is that of an attribute that marks a method call or a notification.
pub fn is_mark(path: &Option<String>) -> (mark: bool)
    ensures
        mark == marks(text::text_option_view(*path)),
{
    match path {
        Some(path) => text_eq(path.as_str(), "method") || text_eq(path.as_str(), "notification"),
        None => false,
    }
}

/// The index of the first attribute that marks a method call or a notification.
pub open spec fn marker(attrs: Seq<MethodAttributeView>) -> Option<int> {
    sequences::first_index(attrs, is_marker())
}

/// Whether the attribute has the given identifier.
pub fn is_ident(attr: &MethodAttribute, ident: &str) -> (same: bool)
    ensures
        same == (attr@.path == Some(ident@)),
{
    match &attr.path {
        Some(path) => text_eq(path.as_str(), ident),
        None => false,
    }
}

/// Finds the first attribute that marks a method call or a notification.
pub fn find_marker(attrs: &Vec<MethodAttribute>) -> (index: Option<usize>)
    ensures
        match index {
            Some(index) => index < attrs@.len() && marker(attrs_view(attrs@)) == Some(
                index as int,
            ),
            None => marker(attrs_view(attrs@)) is None,
        },
{
    let ghost all = attrs_view(attrs@);
    for index in 0..attrs.len()
        invariant
            all == attrs_view(attrs@),
            forall|i: int| #![trigger all[i]] 0 <= i < index ==> !is_marker()(all[i]),
    {
        assert(all[index as int] == attrs@[index as int]@);
        if is_mark(&attrs[index].path) {
            proof {
                sequences::first_index_found(all, is_marker(), index as int);
            }
            return Some(index);
        }
    }
    proof {
        sequences::first_index_exists(all, is_marker());
    }
    None
}

/// The item without the attribute that marks it.
pub open spec fn without_marker(item: ItemView) -> ItemView {
    match item {
        ItemView::Method { attrs, sig } => match marker(attrs) {
            Some(index) => ItemView::Method { attrs: attrs.remove(index), sig },
            None => item,
        },
        ItemView::Other => item,
    }
}

/// The mark of an item is the first of its attributes that is named `method` or `notification`.
pub proof fn mark_is_the_first(attrs: Seq<MethodAttributeView>, i: int)
    requires
        0 <= i < attrs.len(),
    ensures
        marker(attrs) is None ==> attrs[i].path != Some("method"@) && attrs[i].path != Some(
            "notification"@,
        ),
        marker(attrs) matches Some(index) ==> {
            &&& 0 <= index < attrs.len()
            &&& attrs[index].path == Some("method"@) || attrs[index].path == Some("notification"@)
            &&& i < index ==> attrs[i].path != Some("method"@) && attrs[i].path != Some(
                "notification"@,
            )
        },
{
    sequences::first_index_exists(attrs, is_marker());
    if marker(attrs) is Some {
        sequences::first_index_is_first(attrs, is_marker(), i);
        assert(is_marker()(attrs[marker(attrs)->0]));
    } else {
        assert(!is_marker()(attrs[i]));
    }
}

/// Where the mark of an item is taken away, its signature stays, and so do its other attributes, in
/// their order.
pub proof fn unmarked_item_keeps_the_rest(item: ItemView, at: int, i: int)
    requires
        item is Method,
        marker(item->attrs) == Some(at),
    ensures
        without_marker(item) is Method,
        without_marker(item)->sig == item->sig,
        without_marker(item)->attrs.len() == item->attrs.len() - 1,
        0 <= i < at ==> without_marker(item)->attrs[i] == item->attrs[i],
        at < i < item->attrs.len() ==> without_marker(item)->attrs[i - 1] == item->attrs[i],
{
    sequences::first_index_exists(item->attrs, is_marker());
}

/// An item without a mark stays as it is.
pub proof fn unmarked_item_stays(item: ItemView)
    requires
        mark_of(item) is None,
    ensures
        without_marker(item) == item,
{
}

/// Takes the attribute that marks an item away.
pub fn remove_marker(item: Item) -> (unmarked: Item)
    ensures
        unmarked@ == without_marker(item@),
{
    match item {
        Item::Method { attrs, sig } => match find_marker(&attrs) {
            Some(index) => {
                let mut rest = attrs;
                rest.remove(index);
                assert(attrs_view(rest@) =~= attrs_view(attrs@).remove(index as int));
                Item::Method { attrs: rest, sig }
            },
            None => Item::Method { attrs, sig },
        },
        Item::Other => Item::Other,
    }
}

/// Takes the attributes that mark items away.
pub fn remove_markers(items: Vec<Item>) -> (unmarked: Vec<Item>)
    ensures
        items_view(unmarked@) == items_view(items@).map_values(
            |item: ItemView| without_marker(item),
        ),
{
    let mut unmarked: Vec<Item> = Vec::new();
    for item in rest: items
        invariant
            rest.seq() == items@,
            unmarked@.len() == rest.index(),
            forall|i: int|
                #![trigger unmarked@[i]]
                0 <= i < unmarked@.len() ==> unmarked@[i]@ == without_marker(items@[i]@),
    {
        assert(item == items@[rest.index() as int]);
        unmarked.push(remove_marker(item));
    }
    assert(items_view(unmarked@) =~= items_view(items@).map_values(
        |item: ItemView| without_marker(item),
    ));
    unmarked
}

/// The arguments that have a name, with their indices.
pub open spec fn named_arguments(inputs: Seq<ArgumentView>) -> Seq<ParamView>
    decreases inputs.len(),
{
    if inputs.len() == 0 {
        Seq::empty()
    } else {
        let front = named_arguments(inputs.drop_last());
        match inputs.last() {
            ArgumentView::Typed { ident: Some(name) } => front.push(
                ParamView { name, position: (inputs.len() - 1) as nat },
            ),
            _ => front,
        }
    }
}

/// Each parameter is an argument that has a name, with that name and the index of the argument, and
/// the parameters stand in the order of the arguments.
pub proof fn params_are_arguments(inputs: Seq<ArgumentView>, k: int, l: int)
    ensures
        0 <= k < named_arguments(inputs).len() ==> {
            let param = named_arguments(inputs)[k];
            &&& param.position < inputs.len()
            &&& inputs[param.position as int] == (ArgumentView::Typed { ident: Some(param.name) })
        },
        0 <= k < l < named_arguments(inputs).len() ==> named_arguments(inputs)[k].position
            < named_arguments(inputs)[l].position,
    decreases inputs.len(),
{
    if inputs.len() > 0 {
        let front = inputs.drop_last();
        params_are_arguments(front, k, l);
        if 0 <= k < named_arguments(front).len() {
            let param = named_arguments(front)[k];
            assert(front[param.position as int] == inputs[param.position as int]);
            assert(named_arguments(inputs)[k] == param);
        }
    }
}

/// Where all arguments behind the first `n` have names, and those do not, the parameters are the
/// arguments behind them, one by one.
pub proof fn params_are_the_rest(inputs: Seq<ArgumentView>, n: nat)
    requires
        n <= inputs.len(),
        forall|i: int| #![trigger inputs[i]] 0 <= i < n ==> inputs[i] is Receiver,
        forall|i: int|
            #![trigger inputs[i]]
            n <= i < inputs.len() ==> inputs[i] is Typed && inputs[i]->ident is Some,
    ensures
        named_arguments(inputs).len() == inputs.len() - n,
        forall|k: int|
            #![trigger named_arguments(inputs)[k]]
            0 <= k < inputs.len() - n ==> named_arguments(inputs)[k] == (ParamView {
                name: inputs[n + k]->ident->0,
                position: (n + k) as nat,
            }),
    decreases inputs.len(),
{
    if inputs.len() > 0 {
        let front = inputs.drop_last();
        if n <= front.len() {
            params_are_the_rest(front, n);
        } else {
            params_are_the_rest(front, front.len());
        }
    }
}

/// Each argument that has a name is a parameter.
pub proof fn named_arguments_are_params(inputs: Seq<ArgumentView>, i: int)
    requires
        0 <= i < inputs.len(),
        inputs[i] is Typed,
        inputs[i]->ident is Some,
    ensures
        named_arguments(inputs).contains(
            ParamView { name: inputs[i]->ident->0, position: i as nat },
        ),
    decreases inputs.len(),
{
    let param = ParamView { name: inputs[i]->ident->0, position: i as nat };
    let front = inputs.drop_last();
    if i < front.len() {
        assert(front[i] == inputs[i]);
        named_arguments_are_params(front, i);
        let k = choose|k: int|
            0 <= k < named_arguments(front).len() && #[trigger] named_arguments(front)[k] == param;
        assert(named_arguments(inputs)[k] == param);
    } else {
        assert(named_arguments(inputs).last() == param);
    }
}

/// The receiver is not counted, whether it is written as one or as an argument named `self`; every
/// other argument is.
pub proof fn receiver_is_not_counted(first: ArgumentView, rest: Seq<ArgumentView>)
    ensures
        arity_of(Seq::empty()) == 0,
        first is Receiver || first == (ArgumentView::Typed { ident: Some("self"@) }) ==> arity_of(
            seq![first] + rest,
        ) == rest.len(),
        first is Typed && first != (ArgumentView::Typed { ident: Some("self"@) }) ==> arity_of(
            seq![first] + rest,
        ) == rest.len() + 1,
{
    assert((seq![first] + rest)[0] == first);
}

/// The arguments begin with a receiver, written as one or as an argument named `self`.
pub open spec fn has_receiver(inputs: Seq<ArgumentView>) -> bool {
    inputs.len() > 0 && match inputs[0] {
        ArgumentView::Receiver { .. } => true,
        ArgumentView::Typed { ident } => ident == Some("self"@),
    }
}

/// How many arguments there are besides the receiver.
pub open spec fn arity_of(inputs: Seq<ArgumentView>) -> nat {
    if has_receiver(inputs) {
        (inputs.len() - 1) as nat
    } else {
        inputs.len()
    }
}

/// Counts the arguments besides the receiver.
pub fn arity(inputs: &Vec<Argument>) -> (arity: usize)
    ensures
        arity == arity_of(args_view(inputs@)),
{
    if inputs.len() == 0 {
        return 0;
    }
    assert(args_view(inputs@)[0] == inputs@[0]@);
    let receiver = match &inputs[0] {
        Argument::Receiver { .. } => true,
        Argument::Typed { ident } => match ident {
            Some(ident) => text_eq(ident.as_str(), "self"),
            None => false,
        },
    };
    if receiver {
        inputs.len() - 1
    } else {
        inputs.len()
    }
}

} // verus!
