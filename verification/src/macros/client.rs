//! Clients: blocks of method signatures that are marked as method calls and notifications.

use crate::macros::syntax;
use crate::macros::syntax::{
    find_marker, is_ident, Argument, ArgumentView, AttributeMeta, AttributeMetaView, FnSignature,
    FnSignatureView, Item, ItemView, MethodAttribute, Param, ParamView,
};
use crate::macros::table::Table;
use crate::sequences;
use crate::text;
use crate::text::join;
use vstd::prelude::*;

verus! {

/// A client as it is declared: its name and its items.
#[derive(Debug, PartialEq)]
pub struct JsonRpcClientImplSyntax {
    pub ident: String,
    pub items: Vec<Item>,
}

/// How a method of a client is called, and the name that goes over the connection. `receiver` is
/// the index of the receiver among the arguments, `item` the index of the item.
#[derive(Debug, PartialEq)]
pub struct ClientMethodSignature {
    pub params: Vec<Param>,
    pub name: String,
    pub receiver: usize,
    pub item: usize,
    pub return_type: bool,
}

/// What a `ClientMethodSignature` is.
pub struct ClientMethodSignatureView {
    pub params: Seq<ParamView>,
    pub name: Seq<char>,
    pub receiver: nat,
    pub item: nat,
    pub return_type: bool,
}

/// The notifications and the methods of a client, each by its identifier. Identifiers are not
/// overloaded: the number of each entry is zero.
#[derive(Debug)]
pub struct JsonRpcClientImpl {
    pub name: String,
    pub notifications: Table<ClientMethodSignature>,
    pub methods: Table<ClientMethodSignature>,
}

/// What a `JsonRpcClientImpl` is.
pub struct JsonRpcClientImplView {
    pub name: Seq<char>,
    pub notifications: Map<(Seq<char>, nat), ClientMethodSignatureView>,
    pub methods: Map<(Seq<char>, nat), ClientMethodSignatureView>,
}

/// What is wrong with a declaration, with the index of the item and of the argument that it is
/// about.
#[derive(Debug, PartialEq)]
pub enum ClientSyntaxError {
    NotMethod { item: usize },
    MissingAttribute { item: usize },
    NameNotString { item: usize },
    InvalidAttribute { item: usize },
    PatternArgument { item: usize, arg: usize },
    MissingSelf { item: usize },
    MultipleMethods { item: usize, name: String, previous: usize },
}

/// What a `ClientSyntaxError` is.
pub enum ClientSyntaxErrorView {
    NotMethod { item: nat },
    MissingAttribute { item: nat },
    NameNotString { item: nat },
    InvalidAttribute { item: nat },
    PatternArgument { item: nat, arg: nat },
    MissingSelf { item: nat },
    MultipleMethods { item: nat, name: Seq<char>, previous: nat },
}

impl View for ClientMethodSignature {
    type V = ClientMethodSignatureView;

    open spec fn view(&self) -> ClientMethodSignatureView {
        ClientMethodSignatureView {
            params: syntax::params_view(self.params@),
            name: self.name@,
            receiver: self.receiver as nat,
            item: self.item as nat,
            return_type: self.return_type,
        }
    }
}

impl JsonRpcClientImpl {
    /// The notifications and the methods.
    pub open spec fn view(&self) -> JsonRpcClientImplView {
        JsonRpcClientImplView {
            name: self.name@,
            notifications: self.notifications@,
            methods: self.methods@,
        }
    }
}

/// The arguments that are a pattern in place of a name.
pub open spec fn is_pattern() -> spec_fn(ArgumentView) -> bool {
    |arg: ArgumentView| arg == (ArgumentView::Typed { ident: None })
}

/// The index of the last receiver among the arguments.
pub open spec fn last_receiver(inputs: Seq<ArgumentView>) -> Option<nat>
    decreases inputs.len(),
{
    if inputs.len() == 0 {
        None
    } else if inputs.last() is Receiver {
        Some((inputs.len() - 1) as nat)
    } else {
        last_receiver(inputs.drop_last())
    }
}

/// How what is declared by the item with the given index is called.
pub open spec fn signature_from(sig: FnSignatureView, name: Seq<char>, item: nat) -> Result<
    ClientMethodSignatureView,
    ClientSyntaxErrorView,
> {
    match sequences::first_index(sig.inputs, is_pattern()) {
        Some(index) => Err(ClientSyntaxErrorView::PatternArgument { item, arg: index as nat }),
        None => match last_receiver(sig.inputs) {
            None => Err(ClientSyntaxErrorView::MissingSelf { item }),
            Some(receiver) => Ok(
                ClientMethodSignatureView {
                    params: syntax::named_arguments(sig.inputs),
                    name,
                    receiver,
                    item,
                    return_type: sig.output,
                },
            ),
        },
    }
}

/// The entries with one more, whose attribute holds `meta`.
pub open spec fn declare(
    entries: Map<(Seq<char>, nat), ClientMethodSignatureView>,
    meta: AttributeMetaView,
    sig: FnSignatureView,
    item: nat,
) -> Result<Map<(Seq<char>, nat), ClientMethodSignatureView>, ClientSyntaxErrorView> {
    match meta {
        AttributeMetaView::NameString(name) => match signature_from(sig, name, item) {
            Err(error) => Err(error),
            Ok(signature) => if entries.contains_key((sig.ident, 0)) {
                Err(
                    ClientSyntaxErrorView::MultipleMethods {
                        item,
                        name,
                        previous: entries[(sig.ident, 0)].item,
                    },
                )
            } else {
                Ok(entries.insert((sig.ident, 0), signature))
            },
        },
        AttributeMetaView::NameOther => Err(ClientSyntaxErrorView::NameNotString { item }),
        AttributeMetaView::Other => Err(ClientSyntaxErrorView::InvalidAttribute { item }),
    }
}

/// The client with what one more item declares: each must be a method with a mark.
pub open spec fn declare_item(client: JsonRpcClientImplView, item: ItemView, index: nat) -> Result<
    JsonRpcClientImplView,
    ClientSyntaxErrorView,
> {
    match item {
        ItemView::Other => Err(ClientSyntaxErrorView::NotMethod { item: index }),
        ItemView::Method { attrs, sig } => match syntax::marker(attrs) {
            None => Err(ClientSyntaxErrorView::MissingAttribute { item: index }),
            Some(at) => if attrs[at].path == Some("method"@) {
                match declare(client.methods, attrs[at].meta, sig, index) {
                    Ok(methods) => Ok(JsonRpcClientImplView { methods, ..client }),
                    Err(error) => Err(error),
                }
            } else {
                match declare(client.notifications, attrs[at].meta, sig, index) {
                    Ok(notifications) => Ok(JsonRpcClientImplView { notifications, ..client }),
                    Err(error) => Err(error),
                }
            },
        },
    }
}

/// The client that the first `n` items declare, or what is wrong with the first that is wrong.
pub open spec fn client_from_items(name: Seq<char>, items: Seq<ItemView>, n: nat) -> Result<
    JsonRpcClientImplView,
    ClientSyntaxErrorView,
>
    decreases n,
{
    if n == 0 {
        Ok(JsonRpcClientImplView { name, notifications: Map::empty(), methods: Map::empty() })
    } else {
        match client_from_items(name, items, (n - 1) as nat) {
            Err(error) => Err(error),
            Ok(client) => declare_item(client, items[n - 1], (n - 1) as nat),
        }
    }
}

/// What reading a declaration gave.
pub open spec fn client_read(read: Result<JsonRpcClientImpl, ClientSyntaxError>) -> Result<
    JsonRpcClientImplView,
    ClientSyntaxErrorView,
> {
    match read {
        Ok(client) => Ok(client@),
        Err(error) => Err(error@),
    }
}

/// What reading a signature gave.
pub open spec fn signature_read(read: Result<ClientMethodSignature, ClientSyntaxError>) -> Result<
    ClientMethodSignatureView,
    ClientSyntaxErrorView,
> {
    match read {
        Ok(signature) => Ok(signature@),
        Err(error) => Err(error@),
    }
}

impl ClientMethodSignature {
    /// Reads how what is declared by the item with the given index is called.
    pub fn parse_signature(sig: &FnSignature, name: String, item: usize) -> (read: Result<
        ClientMethodSignature,
        ClientSyntaxError,
    >)
        ensures
            signature_read(read) == signature_from(sig@, name@, item as nat),
    {
        let ghost inputs = sig@.inputs;
        let mut receiver_opt: Option<usize> = None;
        let mut params: Vec<Param> = Vec::new();
        for arg in 0..sig.inputs.len()
            invariant
                inputs == syntax::args_view(sig.inputs@),
                forall|i: int| #![trigger inputs[i]] 0 <= i < arg ==> !is_pattern()(inputs[i]),
                syntax::params_view(params@) == syntax::named_arguments(inputs.take(arg as int)),
                match receiver_opt {
                    Some(receiver) => last_receiver(inputs.take(arg as int)) == Some(
                        receiver as nat,
                    ),
                    None => last_receiver(inputs.take(arg as int)) is None,
                },
        {
            assert(inputs[arg as int] == sig.inputs@[arg as int]@);
            assert(inputs.take(arg + 1).drop_last() =~= inputs.take(arg as int));
            assert(inputs.take(arg + 1).last() == inputs[arg as int]);
            match &sig.inputs[arg] {
                Argument::Receiver { .. } => {
                    receiver_opt = Some(arg);
                },
                Argument::Typed { ident } => match ident {
                    Some(name) => {
                        let ghost before = params@;
                        params.push(Param { name: name.clone(), position: arg });
                        assert(syntax::params_view(params@) =~= syntax::params_view(before).push(
                            params@.last()@,
                        ));
                    },
                    None => {
                        proof {
                            sequences::first_index_found(inputs, is_pattern(), arg as int);
                        }
                        return Err(ClientSyntaxError::PatternArgument { item, arg });
                    },
                },
            }
        }
        proof {
            sequences::first_index_exists(inputs, is_pattern());
            assert(inputs.take(inputs.len() as int) =~= inputs);
        }
        match receiver_opt {
            Some(receiver) => Ok(
                ClientMethodSignature { params, name, receiver, item, return_type: sig.output },
            ),
            None => Err(ClientSyntaxError::MissingSelf { item }),
        }
    }

    /// The name of each parameter, with the index of the argument that its type stands in.
    pub fn param_sigs(&self) -> (sigs: Vec<(String, usize)>)
        ensures
            sigs@.len() == self@.params.len(),
            forall|i: int|
                #![trigger sigs@[i]]
                0 <= i < sigs@.len() ==> sigs@[i].0@ == self@.params[i].name && sigs@[i].1
                    == self@.params[i].position,
    {
        let mut sigs: Vec<(String, usize)> = Vec::with_capacity(self.params.len());
        for i in 0..self.params.len()
            invariant
                sigs@.len() == i,
                forall|k: int|
                    #![trigger sigs@[k]]
                    0 <= k < i ==> sigs@[k].0@ == self@.params[k].name && sigs@[k].1
                        == self@.params[k].position,
        {
            sigs.push((self.params[i].name.clone(), self.params[i].position));
        }
        sigs
    }
}

/// Takes one more entry in.
fn add_entry(
    entries: &mut Table<ClientMethodSignature>,
    meta: &AttributeMeta,
    sig: &FnSignature,
    item: usize,
) -> (added: Result<(), ClientSyntaxError>)
    ensures
        match added {
            Ok(_) => declare(old(entries)@, meta@, sig@, item as nat) == Ok::<
                Map<(Seq<char>, nat), ClientMethodSignatureView>,
                ClientSyntaxErrorView,
            >(final(entries)@),
            Err(error) => declare(old(entries)@, meta@, sig@, item as nat) == Err::<
                Map<(Seq<char>, nat), ClientMethodSignatureView>,
                ClientSyntaxErrorView,
            >(error@),
        },
{
    let name = match meta {
        AttributeMeta::NameString(name) => name.clone(),
        AttributeMeta::NameOther => return Err(ClientSyntaxError::NameNotString { item }),
        AttributeMeta::Other => return Err(ClientSyntaxError::InvalidAttribute { item }),
    };
    let signature = match ClientMethodSignature::parse_signature(sig, name.clone(), item) {
        Ok(signature) => signature,
        Err(error) => return Err(error),
    };
    match entries.get(sig.ident.as_str(), 0) {
        Some(previous) => {
            let previous: usize = previous.item;
            return Err(ClientSyntaxError::MultipleMethods { item, name, previous });
        },
        None => {},
    }
    entries.insert(sig.ident.clone(), 0, signature);
    Ok(())
}

/// Takes what one more item declares into a client.
fn add_item(client: &mut JsonRpcClientImpl, item: &Item, index: usize) -> (added: Result<
    (),
    ClientSyntaxError,
>)
    ensures
        match added {
            Ok(_) => declare_item(old(client)@, item@, index as nat) == Ok::<
                JsonRpcClientImplView,
                ClientSyntaxErrorView,
            >(final(client)@),
            Err(error) => declare_item(old(client)@, item@, index as nat) == Err::<
                JsonRpcClientImplView,
                ClientSyntaxErrorView,
            >(error@),
        },
{
    match item {
        Item::Other => Err(ClientSyntaxError::NotMethod { item: index }),
        Item::Method { attrs, sig } => match find_marker(attrs) {
            None => Err(ClientSyntaxError::MissingAttribute { item: index }),
            Some(at) => {
                let attr: &MethodAttribute = &attrs[at];
                assert(syntax::attrs_view(attrs@)[at as int] == attr@);
                if is_ident(attr, "method") {
                    add_entry(&mut client.methods, &attr.meta, sig, index)
                } else {
                    add_entry(&mut client.notifications, &attr.meta, sig, index)
                }
            },
        },
    }
}

/// What is sent is called through a receiver, the last if there are more, and each other argument
/// has a name: exactly then what is declared can be sent.
pub proof fn signature_is_that_of_the_method(
    sig: FnSignatureView,
    name: Seq<char>,
    item: nat,
    i: int,
)
    requires
        0 <= i < sig.inputs.len(),
    ensures
        signature_from(sig, name, item) is Ok ==> {
            let signature = signature_from(sig, name, item)->Ok_0;
            &&& signature.name == name
            &&& signature.item == item
            &&& signature.return_type == sig.output
            &&& signature.params == syntax::named_arguments(sig.inputs)
            &&& signature.receiver < sig.inputs.len()
            &&& sig.inputs[signature.receiver as int] is Receiver
            &&& signature.receiver < i ==> sig.inputs[i] is Typed
            &&& sig.inputs[i] is Typed ==> sig.inputs[i]->ident is Some
        },
        signature_from(sig, name, item) matches Err(error) ==> {
            &&& error matches ClientSyntaxErrorView::PatternArgument { item: index, arg } ==> {
                &&& index == item
                &&& arg < sig.inputs.len()
                &&& sig.inputs[arg as int] == (ArgumentView::Typed { ident: None })
                &&& i < arg ==> sig.inputs[i] != (ArgumentView::Typed { ident: None })
            }
            &&& !(error is PatternArgument) ==> {
                &&& error == ClientSyntaxErrorView::MissingSelf { item }
                &&& sig.inputs[i] is Typed
                &&& sig.inputs[i]->ident is Some
            }
        },
{
    sequences::first_index_exists(sig.inputs, is_pattern());
    match sequences::first_index(sig.inputs, is_pattern()) {
        Some(index) => {
            assert(is_pattern()(sig.inputs[index]));
            sequences::first_index_is_first(sig.inputs, is_pattern(), i);
        },
        None => {
            assert(!is_pattern()(sig.inputs[i]));
            receiver_is_the_last(sig.inputs, i);
        },
    }
}

proof fn receiver_is_the_last(inputs: Seq<ArgumentView>, i: int)
    requires
        0 <= i < inputs.len(),
    ensures
        last_receiver(inputs) is None ==> inputs[i] is Typed,
        last_receiver(inputs) matches Some(receiver) ==> {
            &&& receiver < inputs.len()
            &&& inputs[receiver as int] is Receiver
            &&& receiver < i ==> inputs[i] is Typed
        },
    decreases inputs.len(),
{
    let front = inputs.drop_last();
    if !(inputs.last() is Receiver) {
        if i < front.len() {
            receiver_is_the_last(front, i);
        } else if front.len() > 0 {
            receiver_is_the_last(front, 0);
        } else {
            reveal_with_fuel(last_receiver, 2);
        }
    }
}

/// Once an item is wrong, what follows does not matter.
proof fn first_error_stays(name: Seq<char>, items: Seq<ItemView>, m: nat, n: nat)
    requires
        m <= n,
        client_from_items(name, items, m) is Err,
    ensures
        client_from_items(name, items, n) == client_from_items(name, items, m),
    decreases n - m,
{
    if m < n {
        first_error_stays(name, items, m, (n - 1) as nat);
    }
}

/// What is declared stays declared.
proof fn declarations_stay(name: Seq<char>, items: Seq<ItemView>, m: nat, n: nat)
    requires
        m <= n,
        client_from_items(name, items, n) is Ok,
    ensures
        client_from_items(name, items, m) is Ok,
        forall|ident: Seq<char>| #[trigger]
            client_from_items(name, items, m)->Ok_0.methods.contains_key((ident, 0)) ==> {
                &&& client_from_items(name, items, n)->Ok_0.methods.contains_key((ident, 0))
                &&& client_from_items(name, items, n)->Ok_0.methods[(ident, 0)]
                    == client_from_items(name, items, m)->Ok_0.methods[(ident, 0)]
            },
        forall|ident: Seq<char>| #[trigger]
            client_from_items(name, items, m)->Ok_0.notifications.contains_key((ident, 0)) ==> {
                &&& client_from_items(name, items, n)->Ok_0.notifications.contains_key((ident, 0))
                &&& client_from_items(name, items, n)->Ok_0.notifications[(ident, 0)]
                    == client_from_items(name, items, m)->Ok_0.notifications[(ident, 0)]
            },
    decreases n - m,
{
    if m < n {
        declarations_stay(name, items, m, (n - 1) as nat);
    }
}

/// In a client that was read without an error, each item is a method that is marked, and it is
/// what its identifier stands for.
pub proof fn every_item_is_declared(name: Seq<char>, items: Seq<ItemView>, index: nat)
    requires
        index < items.len(),
        client_from_items(name, items, items.len()) is Ok,
    ensures
        ({
            let client = client_from_items(name, items, items.len())->Ok_0;
            let item = items[index as int];
            let attr = item->attrs[syntax::marker(item->attrs)->0];
            let key = (item->sig.ident, 0nat);
            &&& item is Method
            &&& syntax::marker(item->attrs) is Some
            &&& attr.meta is NameString
            &&& attr.path == Some("method"@) ==> {
                &&& client.methods.contains_key(key)
                &&& client.methods[key].item == index
                &&& client.methods[key].name == attr.meta->NameString_0
            }
            &&& attr.path != Some("method"@) ==> {
                &&& client.notifications.contains_key(key)
                &&& client.notifications[key].item == index
                &&& client.notifications[key].name == attr.meta->NameString_0
            }
        }),
{
    declarations_stay(name, items, (index + 1) as nat, items.len());
    declarations_stay(name, items, index, items.len());
    let client = client_from_items(name, items, (index + 1) as nat)->Ok_0;
    let item = items[index as int];
    let attr = item->attrs[syntax::marker(item->attrs)->0];
    let key = (item->sig.ident, 0nat);
    if attr.path == Some("method"@) {
        assert(client.methods.contains_key(key));
    } else {
        assert(client.notifications.contains_key(key));
    }
}

/// The item with the given index is marked with the given path, and has the given identifier.
pub open spec fn declares(
    items: Seq<ItemView>,
    index: nat,
    path: Seq<char>,
    ident: Seq<char>,
) -> bool {
    &&& index < items.len()
    &&& syntax::mark_of(items[index as int]) is Some
    &&& syntax::mark_of(items[index as int])->0.path == Some(path)
    &&& syntax::mark_of(items[index as int])->0.meta is NameString
    &&& items[index as int]->sig.ident == ident
}

/// What the item with the given index declares.
pub open spec fn declared(items: Seq<ItemView>, index: nat) -> Result<
    ClientMethodSignatureView,
    ClientSyntaxErrorView,
> {
    signature_from(
        items[index as int]->sig,
        syntax::mark_of(items[index as int])->0.meta->NameString_0,
        index,
    )
}

proof fn declared_by_the_first(
    name: Seq<char>,
    items: Seq<ItemView>,
    n: nat,
    key: (Seq<char>, nat),
)
    requires
        n <= items.len(),
        client_from_items(name, items, n) is Ok,
    ensures
        ({
            let client = client_from_items(name, items, n)->Ok_0;
            &&& client.name == name
            &&& client.methods.contains_key(key) ==> {
                let signature = client.methods[key];
                &&& key.1 == 0
                &&& signature.item < n
                &&& declares(items, signature.item, "method"@, key.0)
                &&& declared(items, signature.item) == Ok::<
                    ClientMethodSignatureView,
                    ClientSyntaxErrorView,
                >(signature)
            }
            &&& client.notifications.contains_key(key) ==> {
                let signature = client.notifications[key];
                &&& key.1 == 0
                &&& signature.item < n
                &&& declares(items, signature.item, "notification"@, key.0)
                &&& declared(items, signature.item) == Ok::<
                    ClientMethodSignatureView,
                    ClientSyntaxErrorView,
                >(signature)
            }
        }),
    decreases n,
{
    if n > 0 {
        let last = (n - 1) as nat;
        declared_by_the_first(name, items, last, key);
        match items[last as int] {
            ItemView::Method { attrs, sig } => {
                sequences::first_index_exists(attrs, syntax::is_marker());
            },
            ItemView::Other => {},
        }
    }
}

/// In a client that was read without an error, nothing is declared but by an item that is marked
/// so: each method and each notification is what the item with its index declares, under the
/// identifier of that item.
pub proof fn nothing_else_is_declared(
    name: Seq<char>,
    items: Seq<ItemView>,
    key: (Seq<char>, nat),
)
    requires
        client_from_items(name, items, items.len()) is Ok,
    ensures
        ({
            let client = client_from_items(name, items, items.len())->Ok_0;
            &&& client.name == name
            &&& client.methods.contains_key(key) ==> {
                let signature = client.methods[key];
                &&& key.1 == 0
                &&& declares(items, signature.item, "method"@, key.0)
                &&& declared(items, signature.item) == Ok::<
                    ClientMethodSignatureView,
                    ClientSyntaxErrorView,
                >(signature)
            }
            &&& client.notifications.contains_key(key) ==> {
                let signature = client.notifications[key];
                &&& key.1 == 0
                &&& declares(items, signature.item, "notification"@, key.0)
                &&& declared(items, signature.item) == Ok::<
                    ClientMethodSignatureView,
                    ClientSyntaxErrorView,
                >(signature)
            }
        }),
{
    declared_by_the_first(name, items, items.len(), key);
}

/// Each item is a method with a mark that names something, and can be called.
pub open spec fn items_are_well_formed(items: Seq<ItemView>) -> bool {
    forall|i: int|
        #![trigger items[i]]
        0 <= i < items.len() ==> {
            &&& syntax::mark_of(items[i]) is Some
            &&& syntax::mark_of(items[i])->0.meta is NameString
            &&& declared(items, i as nat) is Ok
        }
}

/// Two items are marked alike, and have one identifier.
pub open spec fn declared_twice(items: Seq<ItemView>, i: nat, j: nat) -> bool {
    i < j && exists|path: Seq<char>, ident: Seq<char>|
        #![trigger declares(items, i, path, ident)]
        declares(items, i, path, ident) && declares(items, j, path, ident)
}

proof fn refused_for_a_reason(name: Seq<char>, items: Seq<ItemView>, n: nat)
    requires
        n <= items.len(),
        items_are_well_formed(items),
        client_from_items(name, items, n) is Err,
    ensures
        exists|i: nat, j: nat| declared_twice(items, i, j),
    decreases n,
{
    let last = (n - 1) as nat;
    if client_from_items(name, items, last) is Err {
        refused_for_a_reason(name, items, last);
    } else {
        let client = client_from_items(name, items, last)->Ok_0;
        let item = items[last as int];
        assert(declare_item(client, item, last) is Err);
        sequences::first_index_exists(item->attrs, syntax::is_marker());
        let path = syntax::mark_of(item)->0.path->0;
        let ident = item->sig.ident;
        assert(declares(items, last, path, ident));
        declared_by_the_first(name, items, last, (ident, 0nat));
        let previous = if path == "method"@ {
            client.methods[(ident, 0nat)].item
        } else {
            client.notifications[(ident, 0nat)].item
        };
        assert(declares(items, previous, path, ident));
        assert(declared_twice(items, previous, last));
    }
}

/// A client that is refused is refused for its first item that is wrong: what stands before that
/// item can be read, and what is told of the item is what is wrong with it.
pub proof fn clients_are_refused_for_a_reason(name: Seq<char>, items: Seq<ItemView>, n: nat)
    requires
        n <= items.len(),
        client_from_items(name, items, n) is Err,
    ensures
        ({
            let error = client_from_items(name, items, n)->Err_0;
            let item = match error {
                ClientSyntaxErrorView::NotMethod { item } => item,
                ClientSyntaxErrorView::MissingAttribute { item } => item,
                ClientSyntaxErrorView::NameNotString { item } => item,
                ClientSyntaxErrorView::InvalidAttribute { item } => item,
                ClientSyntaxErrorView::PatternArgument { item, .. } => item,
                ClientSyntaxErrorView::MissingSelf { item } => item,
                ClientSyntaxErrorView::MultipleMethods { item, .. } => item,
            };
            let mark = syntax::mark_of(items[item as int]);
            &&& item < n
            &&& client_from_items(name, items, item) is Ok
            &&& match error {
                ClientSyntaxErrorView::NotMethod { .. } => !(items[item as int] is Method),
                ClientSyntaxErrorView::MissingAttribute { .. } => items[item as int] is Method
                    && mark is None,
                ClientSyntaxErrorView::NameNotString { .. } => mark is Some
                    && mark->0.meta is NameOther,
                ClientSyntaxErrorView::InvalidAttribute { .. } => mark is Some
                    && mark->0.meta is Other,
                ClientSyntaxErrorView::MultipleMethods { name, previous, .. } => {
                    &&& previous < item
                    &&& mark is Some
                    &&& mark->0.meta == AttributeMetaView::NameString(name)
                    &&& declares(items, previous, mark->0.path->0, items[item as int]->sig.ident)
                },
                _ => mark is Some && mark->0.meta is NameString && signature_from(
                    items[item as int]->sig,
                    mark->0.meta->NameString_0,
                    item,
                ) == Err::<ClientMethodSignatureView, ClientSyntaxErrorView>(error),
            }
        }),
    decreases n,
{
    let last = (n - 1) as nat;
    if client_from_items(name, items, last) is Err {
        clients_are_refused_for_a_reason(name, items, last);
    } else {
        let item = items[last as int];
        if item is Method {
            sequences::first_index_exists(item->attrs, syntax::is_marker());
            declared_by_the_first(name, items, last, (item->sig.ident, 0nat));
        }
    }
}

/// A client whose items are well formed is refused exactly where two items that are marked alike
/// have one identifier.
pub proof fn only_repetitions_are_refused(name: Seq<char>, items: Seq<ItemView>)
    requires
        items_are_well_formed(items),
    ensures
        client_from_items(name, items, items.len()) is Err <==> exists|i: nat, j: nat|
            declared_twice(items, i, j),
{
    if client_from_items(name, items, items.len()) is Err {
        refused_for_a_reason(name, items, items.len());
    } else if exists|i: nat, j: nat| declared_twice(items, i, j) {
        let (i, j) = choose|i: nat, j: nat| declared_twice(items, i, j);
        every_item_is_declared(name, items, i);
        every_item_is_declared(name, items, j);
        assert(false);
    }
}

impl JsonRpcClientImpl {
    /// Reads the client that is declared.
    pub fn parse_client_syntax(client_syntax: JsonRpcClientImplSyntax) -> (read: Result<
        JsonRpcClientImpl,
        ClientSyntaxError,
    >)
        ensures
            client_read(read) == client_from_items(
                client_syntax.ident@,
                syntax::items_view(client_syntax.items@),
                client_syntax.items@.len(),
            ),
    {
        let ghost name = client_syntax.ident@;
        let ghost items = syntax::items_view(client_syntax.items@);
        let mut client = JsonRpcClientImpl {
            name: client_syntax.ident,
            notifications: Table::new(),
            methods: Table::new(),
        };
        for index in 0..client_syntax.items.len()
            invariant
                name == client_syntax.ident@,
                items == syntax::items_view(client_syntax.items@),
                client_from_items(name, items, index as nat) == Ok::<
                    JsonRpcClientImplView,
                    ClientSyntaxErrorView,
                >(client@),
        {
            assert(items[index as int] == client_syntax.items@[index as int]@);
            match add_item(&mut client, &client_syntax.items[index], index) {
                Ok(_) => {},
                Err(error) => {
                    proof {
                        first_error_stays(name, items, (index + 1) as nat, items.len());
                    }
                    return Err(error);
                },
            }
        }
        Ok(client)
    }
}

impl ClientSyntaxErrorView {
    /// The error in words.
    pub open spec fn text(self) -> Seq<char> {
        match self {
            ClientSyntaxErrorView::NotMethod { .. } =>
                "only methods are allowed in json_rpc_client! blocks"@,
            ClientSyntaxErrorView::MissingAttribute { .. } => "missing #[notification] attribute"@,
            ClientSyntaxErrorView::NameNotString { .. } => "notification name must be a string"@,
            ClientSyntaxErrorView::InvalidAttribute { .. } => "Invalid use of attribute"@,
            ClientSyntaxErrorView::PatternArgument { .. } => "cannot match on method arguments"@,
            ClientSyntaxErrorView::MissingSelf { .. } => "expected a self parameter"@,
            ClientSyntaxErrorView::MultipleMethods { name, .. } =>
                "multiple methods named "@ + name,
        }
    }

    /// What would have been right, where it is said.
    pub open spec fn help(self) -> Option<Seq<char>> {
        match self {
            ClientSyntaxErrorView::InvalidAttribute { .. } => Some(
                "Syntax is #[notification = \"method_name\"]"@,
            ),
            _ => None,
        }
    }
}

/// Where something is declared twice, its name is told at the end; help is given exactly where an
/// attribute is written in a way that is not understood.
pub proof fn client_error_tells_its_cause(error: ClientSyntaxErrorView)
    ensures
        error matches ClientSyntaxErrorView::MultipleMethods { name, .. } ==> text::ends_with(
            error.text(),
            name,
        ),
        error.help() is Some <==> error is InvalidAttribute,
{
    match error {
        ClientSyntaxErrorView::MultipleMethods { name, .. } => {
            text::what_is_put_behind_ends_it("multiple methods named "@, name);
        },
        _ => {},
    }
}

impl ClientSyntaxError {
    /// What the error is.
    pub open spec fn view(&self) -> ClientSyntaxErrorView {
        match *self {
            ClientSyntaxError::NotMethod { item } => ClientSyntaxErrorView::NotMethod {
                item: item as nat,
            },
            ClientSyntaxError::MissingAttribute { item } =>
                ClientSyntaxErrorView::MissingAttribute {
                    item: item as nat,
                },
            ClientSyntaxError::NameNotString { item } => ClientSyntaxErrorView::NameNotString {
                item: item as nat,
            },
            ClientSyntaxError::InvalidAttribute { item } =>
                ClientSyntaxErrorView::InvalidAttribute {
                    item: item as nat,
                },
            ClientSyntaxError::PatternArgument { item, arg } =>
                ClientSyntaxErrorView::PatternArgument {
                    item: item as nat,
                    arg: arg as nat,
                },
            ClientSyntaxError::MissingSelf { item } => ClientSyntaxErrorView::MissingSelf {
                item: item as nat,
            },
            ClientSyntaxError::MultipleMethods { item, name, previous } =>
                ClientSyntaxErrorView::MultipleMethods {
                    item: item as nat,
                    name: name@,
                    previous: previous as nat,
                },
        }
    }

    /// Says in words what is wrong.
    pub fn message(&self) -> (message: String)
        ensures
            message@ == self@.text(),
    {
        match self {
            ClientSyntaxError::NotMethod { .. } =>
                "only methods are allowed in json_rpc_client! blocks".to_owned(),
            ClientSyntaxError::MissingAttribute { .. } =>
                "missing #[notification] attribute".to_owned(),
            ClientSyntaxError::NameNotString { .. } =>
                "notification name must be a string".to_owned(),
            ClientSyntaxError::InvalidAttribute { .. } => "Invalid use of attribute".to_owned(),
            ClientSyntaxError::PatternArgument { .. } =>
                "cannot match on method arguments".to_owned(),
            ClientSyntaxError::MissingSelf { .. } => "expected a self parameter".to_owned(),
            ClientSyntaxError::MultipleMethods { name, .. } => join(
                "multiple methods named ",
                name.as_str(),
            ),
        }
    }

    /// Says what would have been right, where it is said.
    pub fn help(&self) -> (help: Option<String>)
        ensures
            text::text_option_view(help) == self@.help(),
    {
        match self {
            ClientSyntaxError::InvalidAttribute { .. } => Some(
                "Syntax is #[notification = \"method_name\"]".to_owned(),
            ),
            _ => None,
        }
    }
}

} // verus!
