//! Services: impl blocks whose methods are marked as method calls and notifications.

use crate::macros::syntax;
use crate::macros::syntax::{
    arity, find_marker, is_ident, remove_markers, Argument, ArgumentView, AttributeMeta,
    AttributeMetaView, FnSignature, FnSignatureView, Item, ItemView, MethodAttribute, Param,
    ParamView,
};
use crate::macros::table::Table;
use crate::sequences;
use crate::text;
use crate::text::{decimal, join, join3};
use vstd::prelude::*;

verus! {

/// The items of an impl block.
#[derive(Debug, PartialEq)]
pub struct ImplBlock {
    pub items: Vec<Item>,
}

/// How a method or a notification of a service is called. `item` is the index of its item.
#[derive(Debug, PartialEq)]
pub struct ServiceSignature {
    pub params: Vec<Param>,
    pub method_impl_name: String,
    pub is_static: bool,
    pub is_async: bool,
    pub item: usize,
}

/// What a `ServiceSignature` is.
pub struct ServiceSignatureView {
    pub params: Seq<ParamView>,
    pub method_impl_name: Seq<char>,
    pub is_static: bool,
    pub is_async: bool,
    pub item: nat,
}

/// How a method of a service is called, and whether it declares what it returns.
#[derive(Debug, PartialEq)]
pub struct ServiceMethodSignature {
    pub signature: ServiceSignature,
    pub return_type: bool,
}

/// What a `ServiceMethodSignature` is.
pub struct ServiceMethodSignatureView {
    pub signature: ServiceSignatureView,
    pub return_type: bool,
}

/// The methods and the notifications of a service, each by its name and its number of parameters.
#[derive(Debug)]
pub struct JsonRpcServiceImpl {
    pub methods: Table<ServiceMethodSignature>,
    pub notifications: Table<ServiceSignature>,
}

/// What a `JsonRpcServiceImpl` is.
pub struct JsonRpcServiceImplView {
    pub methods: Map<(Seq<char>, nat), ServiceMethodSignatureView>,
    pub notifications: Map<(Seq<char>, nat), ServiceSignatureView>,
}

/// What is wrong with a declaration, with the index of the item and of the argument that it is
/// about.
#[derive(Debug, PartialEq)]
pub enum ServiceSyntaxError {
    MethodNameNotString { item: usize },
    NotificationNameNotString { item: usize },
    InvalidMethodAttribute { item: usize },
    InvalidNotificationAttribute { item: usize },
    SelfByValue { item: usize, arg: usize },
    MutableSelf { item: usize, arg: usize },
    PatternArgument { item: usize, arg: usize },
    MultipleMethods { item: usize, name: String, arity: usize, previous: usize },
    MultipleNotifications { item: usize, name: String, arity: usize, previous: usize },
}

/// What a `ServiceSyntaxError` is.
pub enum ServiceSyntaxErrorView {
    MethodNameNotString { item: nat },
    NotificationNameNotString { item: nat },
    InvalidMethodAttribute { item: nat },
    InvalidNotificationAttribute { item: nat },
    SelfByValue { item: nat, arg: nat },
    MutableSelf { item: nat, arg: nat },
    PatternArgument { item: nat, arg: nat },
    MultipleMethods { item: nat, name: Seq<char>, arity: nat, previous: nat },
    MultipleNotifications { item: nat, name: Seq<char>, arity: nat, previous: nat },
}

impl View for ServiceSignature {
    type V = ServiceSignatureView;

    open spec fn view(&self) -> ServiceSignatureView {
        ServiceSignatureView {
            params: syntax::params_view(self.params@),
            method_impl_name: self.method_impl_name@,
            is_static: self.is_static,
            is_async: self.is_async,
            item: self.item as nat,
        }
    }
}

impl View for ServiceMethodSignature {
    type V = ServiceMethodSignatureView;

    open spec fn view(&self) -> ServiceMethodSignatureView {
        ServiceMethodSignatureView { signature: self.signature@, return_type: self.return_type }
    }
}

impl JsonRpcServiceImpl {
    /// The methods and the notifications.
    pub open spec fn view(&self) -> JsonRpcServiceImplView {
        JsonRpcServiceImplView { methods: self.methods@, notifications: self.notifications@ }
    }
}

/// The arguments that a service cannot take: a receiver that is no shared reference, and a
/// pattern in place of a name.
pub open spec fn bad_argument() -> spec_fn(ArgumentView) -> bool {
    |arg: ArgumentView|
        match arg {
            ArgumentView::Receiver { reference, mutability } => !reference || mutability,
            ArgumentView::Typed { ident } => ident is None,
        }
}

/// None of the arguments is a receiver.
pub open spec fn without_receiver(inputs: Seq<ArgumentView>) -> bool {
    forall|i: int| #![trigger inputs[i]] 0 <= i < inputs.len() ==> inputs[i] is Typed
}

/// How what is declared by the item with the given index is called.
pub open spec fn signature_from(sig: FnSignatureView, item: nat) -> Result<
    ServiceSignatureView,
    ServiceSyntaxErrorView,
> {
    match sequences::first_index(sig.inputs, bad_argument()) {
        Some(index) => {
            let arg = index as nat;
            match sig.inputs[index] {
                ArgumentView::Receiver { reference, .. } => if !reference {
                    Err(ServiceSyntaxErrorView::SelfByValue { item, arg })
                } else {
                    Err(ServiceSyntaxErrorView::MutableSelf { item, arg })
                },
                ArgumentView::Typed { .. } => Err(
                    ServiceSyntaxErrorView::PatternArgument { item, arg },
                ),
            }
        },
        None => Ok(
            ServiceSignatureView {
                params: syntax::named_arguments(sig.inputs),
                method_impl_name: sig.ident,
                is_static: without_receiver(sig.inputs),
                is_async: sig.asyncness,
                item,
            },
        ),
    }
}

/// The service with one more method, whose attribute holds `meta`.
pub open spec fn declare_method(
    service: JsonRpcServiceImplView,
    meta: AttributeMetaView,
    sig: FnSignatureView,
    item: nat,
) -> Result<JsonRpcServiceImplView, ServiceSyntaxErrorView> {
    match meta {
        AttributeMetaView::NameString(name) => match signature_from(sig, item) {
            Err(error) => Err(error),
            Ok(signature) => {
                let arity = syntax::arity_of(sig.inputs);
                if service.methods.contains_key((name, arity)) {
                    Err(
                        ServiceSyntaxErrorView::MultipleMethods {
                            item,
                            name,
                            arity,
                            previous: service.methods[(name, arity)].signature.item,
                        },
                    )
                } else {
                    Ok(
                        JsonRpcServiceImplView {
                            methods: service.methods.insert((name, arity), ServiceMethodSignatureView {
                                signature,
                                return_type: sig.output,
                            }),
                            ..service
                        },
                    )
                }
            },
        },
        AttributeMetaView::NameOther => Err(ServiceSyntaxErrorView::MethodNameNotString { item }),
        AttributeMetaView::Other => Err(ServiceSyntaxErrorView::InvalidMethodAttribute { item }),
    }
}

/// The service with one more notification, whose attribute holds `meta`.
pub open spec fn declare_notification(
    service: JsonRpcServiceImplView,
    meta: AttributeMetaView,
    sig: FnSignatureView,
    item: nat,
) -> Result<JsonRpcServiceImplView, ServiceSyntaxErrorView> {
    match meta {
        AttributeMetaView::NameString(name) => match signature_from(sig, item) {
            Err(error) => Err(error),
            Ok(signature) => {
                let arity = syntax::arity_of(sig.inputs);
                if service.notifications.contains_key((name, arity)) {
                    Err(
                        ServiceSyntaxErrorView::MultipleNotifications {
                            item,
                            name,
                            arity,
                            previous: service.notifications[(name, arity)].item,
                        },
                    )
                } else {
                    Ok(
                        JsonRpcServiceImplView {
                            notifications: service.notifications.insert((name, arity), signature),
                            ..service
                        },
                    )
                }
            },
        },
        AttributeMetaView::NameOther => Err(
            ServiceSyntaxErrorView::NotificationNameNotString { item },
        ),
        AttributeMetaView::Other => Err(
            ServiceSyntaxErrorView::InvalidNotificationAttribute { item },
        ),
    }
}

/// The service with what one more item declares: an item without a mark declares nothing.
pub open spec fn declare_item(service: JsonRpcServiceImplView, item: ItemView, index: nat) -> Result<
    JsonRpcServiceImplView,
    ServiceSyntaxErrorView,
> {
    match item {
        ItemView::Other => Ok(service),
        ItemView::Method { attrs, sig } => match syntax::marker(attrs) {
            None => Ok(service),
            Some(at) => if attrs[at].path == Some("method"@) {
                declare_method(service, attrs[at].meta, sig, index)
            } else {
                declare_notification(service, attrs[at].meta, sig, index)
            },
        },
    }
}

/// The service that the first `n` items declare, or what is wrong with the first that is wrong.
pub open spec fn service_from_items(items: Seq<ItemView>, n: nat) -> Result<
    JsonRpcServiceImplView,
    ServiceSyntaxErrorView,
>
    decreases n,
{
    if n == 0 {
        Ok(JsonRpcServiceImplView { methods: Map::empty(), notifications: Map::empty() })
    } else {
        match service_from_items(items, (n - 1) as nat) {
            Err(error) => Err(error),
            Ok(service) => declare_item(service, items[n - 1], (n - 1) as nat),
        }
    }
}

/// What reading a declaration gave.
pub open spec fn service_read(read: Result<JsonRpcServiceImpl, ServiceSyntaxError>) -> Result<
    JsonRpcServiceImplView,
    ServiceSyntaxErrorView,
> {
    match read {
        Ok(service) => Ok(service@),
        Err(error) => Err(error@),
    }
}

/// What reading a signature gave.
pub open spec fn signature_read(read: Result<ServiceSignature, ServiceSyntaxError>) -> Result<
    ServiceSignatureView,
    ServiceSyntaxErrorView,
> {
    match read {
        Ok(signature) => Ok(signature@),
        Err(error) => Err(error@),
    }
}

/// A receiver is taken by shared reference, and any other argument by a name: exactly then what is
/// declared can be called, by its identifier, and without a receiver where it has none.
pub proof fn signature_is_that_of_the_method(sig: FnSignatureView, item: nat, i: int)
    ensures
        signature_from(sig, item) is Ok ==> {
            let signature = signature_from(sig, item)->Ok_0;
            &&& signature.method_impl_name == sig.ident
            &&& signature.is_async == sig.asyncness
            &&& signature.item == item
            &&& signature.params == syntax::named_arguments(sig.inputs)
            &&& 0 <= i < sig.inputs.len() && sig.inputs[i] is Receiver ==> {
                &&& !signature.is_static
                &&& sig.inputs[i]->reference
                &&& !sig.inputs[i]->mutability
            }
            &&& 0 <= i < sig.inputs.len() && sig.inputs[i] is Typed ==> sig.inputs[i]->ident is Some
            &&& !signature.is_static ==> exists|k: int|
                0 <= k < sig.inputs.len() && #[trigger] sig.inputs[k] is Receiver
        },
        signature_from(sig, item) matches Err(error) ==> {
            let arg = match error {
                ServiceSyntaxErrorView::SelfByValue { arg, .. } => arg,
                ServiceSyntaxErrorView::MutableSelf { arg, .. } => arg,
                ServiceSyntaxErrorView::PatternArgument { arg, .. } => arg,
                _ => sig.inputs.len(),
            };
            &&& arg < sig.inputs.len()
            &&& 0 <= i < arg && sig.inputs[i] is Receiver ==> sig.inputs[i]->reference
                && !sig.inputs[i]->mutability
            &&& 0 <= i < arg && sig.inputs[i] is Typed ==> sig.inputs[i]->ident is Some
            &&& error == match sig.inputs[arg as int] {
                ArgumentView::Receiver { reference: false, .. } =>
                    ServiceSyntaxErrorView::SelfByValue { item, arg },
                ArgumentView::Receiver { .. } => ServiceSyntaxErrorView::MutableSelf { item, arg },
                ArgumentView::Typed { .. } => ServiceSyntaxErrorView::PatternArgument { item, arg },
            }
            &&& !(sig.inputs[arg as int] matches ArgumentView::Receiver {
                reference: true,
                mutability: false,
            })
            &&& !(sig.inputs[arg as int] matches ArgumentView::Typed { ident: Some(name) })
        },
{
    sequences::first_index_exists(sig.inputs, bad_argument());
    match sequences::first_index(sig.inputs, bad_argument()) {
        Some(index) => {
            assert(bad_argument()(sig.inputs[index]));
            if 0 <= i < index {
                sequences::first_index_is_first(sig.inputs, bad_argument(), i);
            }
        },
        None => {
            if 0 <= i < sig.inputs.len() {
                assert(!bad_argument()(sig.inputs[i]));
            }
        },
    }
}

/// Once what the first `m` items declare is read, what follows does not change what they declare:
/// an error stays the error, and what is declared stays declared.
proof fn declarations_stay(items: Seq<ItemView>, m: nat, n: nat)
    requires
        m <= n,
        service_from_items(items, n) is Ok,
    ensures
        service_from_items(items, m) is Ok,
        forall|name: Seq<char>, arity: nat| #[trigger]
            service_from_items(items, m)->Ok_0.methods.contains_key((name, arity)) ==> {
                &&& service_from_items(items, n)->Ok_0.methods.contains_key((name, arity))
                &&& service_from_items(items, n)->Ok_0.methods[(name, arity)]
                    == service_from_items(items, m)->Ok_0.methods[(name, arity)]
            },
        forall|name: Seq<char>, arity: nat| #[trigger]
            service_from_items(items, m)->Ok_0.notifications.contains_key((name, arity)) ==> {
                &&& service_from_items(items, n)->Ok_0.notifications.contains_key((name, arity))
                &&& service_from_items(items, n)->Ok_0.notifications[(name, arity)]
                    == service_from_items(items, m)->Ok_0.notifications[(name, arity)]
            },
    decreases n - m,
{
    if m < n {
        declarations_stay(items, m, (n - 1) as nat);
    }
}

/// In a service that was read without an error, each item that is marked as a method call is what
/// its name and its number of parameters stand for, and the same holds of notifications.
pub proof fn every_marked_item_is_declared(items: Seq<ItemView>, index: nat)
    requires
        index < items.len(),
        service_from_items(items, items.len()) is Ok,
        items[index as int] is Method,
        syntax::marker(items[index as int]->attrs) is Some,
    ensures
        ({
            let service = service_from_items(items, items.len())->Ok_0;
            let sig = items[index as int]->sig;
            let attr = items[index as int]->attrs[syntax::marker(
                items[index as int]->attrs,
            )->0];
            let key = (attr.meta->NameString_0, syntax::arity_of(sig.inputs));
            &&& attr.meta is NameString
            &&& attr.path == Some("method"@) ==> {
                &&& service.methods.contains_key(key)
                &&& service.methods[key].signature.item == index
            }
            &&& attr.path != Some("method"@) ==> {
                &&& service.notifications.contains_key(key)
                &&& service.notifications[key].item == index
            }
        }),
{
    declarations_stay(items, (index + 1) as nat, items.len());
    declarations_stay(items, index, items.len());
    let service = service_from_items(items, (index + 1) as nat)->Ok_0;
    let sig = items[index as int]->sig;
    let attr = items[index as int]->attrs[syntax::marker(items[index as int]->attrs)->0];
    let key = (attr.meta->NameString_0, syntax::arity_of(sig.inputs));
    if attr.path == Some("method"@) {
        assert(service.methods.contains_key(key));
    } else {
        assert(service.notifications.contains_key(key));
    }
}

/// The item with the given index is marked with the given path, and declares something under the
/// given name and number of parameters.
pub open spec fn declares(
    items: Seq<ItemView>,
    index: nat,
    path: Seq<char>,
    key: (Seq<char>, nat),
) -> bool {
    &&& index < items.len()
    &&& syntax::mark_of(items[index as int]) is Some
    &&& syntax::mark_of(items[index as int])->0.path == Some(path)
    &&& syntax::mark_of(items[index as int])->0.meta == AttributeMetaView::NameString(key.0)
    &&& syntax::arity_of(items[index as int]->sig.inputs) == key.1
}

proof fn declared_by_the_first(items: Seq<ItemView>, n: nat, key: (Seq<char>, nat))
    requires
        n <= items.len(),
        service_from_items(items, n) is Ok,
    ensures
        ({
            let service = service_from_items(items, n)->Ok_0;
            &&& service.methods.contains_key(key) ==> {
                let method = service.methods[key];
                let sig = items[method.signature.item as int]->sig;
                &&& method.signature.item < n
                &&& declares(items, method.signature.item, "method"@, key)
                &&& signature_from(sig, method.signature.item) == Ok::<
                    ServiceSignatureView,
                    ServiceSyntaxErrorView,
                >(method.signature)
                &&& method.return_type == sig.output
            }
            &&& service.notifications.contains_key(key) ==> {
                let signature = service.notifications[key];
                let sig = items[signature.item as int]->sig;
                &&& signature.item < n
                &&& declares(items, signature.item, "notification"@, key)
                &&& signature_from(sig, signature.item) == Ok::<
                    ServiceSignatureView,
                    ServiceSyntaxErrorView,
                >(signature)
            }
        }),
    decreases n,
{
    if n > 0 {
        let last = (n - 1) as nat;
        declared_by_the_first(items, last, key);
        match items[last as int] {
            ItemView::Method { attrs, sig } => {
                sequences::first_index_exists(attrs, syntax::is_marker());
            },
            ItemView::Other => {},
        }
    }
}

/// In a service that was read without an error, nothing is declared but by an item that is marked
/// so: each method and each notification is what the item with its index declares, under the name
/// and the number of parameters of that item.
pub proof fn nothing_else_is_declared(items: Seq<ItemView>, key: (Seq<char>, nat))
    requires
        service_from_items(items, items.len()) is Ok,
    ensures
        ({
            let service = service_from_items(items, items.len())->Ok_0;
            &&& service.methods.contains_key(key) ==> {
                let method = service.methods[key];
                let sig = items[method.signature.item as int]->sig;
                &&& declares(items, method.signature.item, "method"@, key)
                &&& signature_from(sig, method.signature.item) == Ok::<
                    ServiceSignatureView,
                    ServiceSyntaxErrorView,
                >(method.signature)
                &&& method.return_type == sig.output
            }
            &&& service.notifications.contains_key(key) ==> {
                let signature = service.notifications[key];
                let sig = items[signature.item as int]->sig;
                &&& declares(items, signature.item, "notification"@, key)
                &&& signature_from(sig, signature.item) == Ok::<
                    ServiceSignatureView,
                    ServiceSyntaxErrorView,
                >(signature)
            }
        }),
{
    declared_by_the_first(items, items.len(), key);
}

/// Each mark names something, and each marked method can be called.
pub open spec fn marks_are_well_formed(items: Seq<ItemView>) -> bool {
    forall|i: int|
        #![trigger items[i]]
        0 <= i < items.len() && syntax::mark_of(items[i]) is Some ==> {
            &&& syntax::mark_of(items[i])->0.meta is NameString
            &&& signature_from(items[i]->sig, i as nat) is Ok
        }
}

/// Two items are marked alike, and declare something under one name and number of parameters.
pub open spec fn declared_twice(items: Seq<ItemView>, i: nat, j: nat) -> bool {
    i < j && exists|path: Seq<char>, key: (Seq<char>, nat)|
        #![trigger declares(items, i, path, key)]
        declares(items, i, path, key) && declares(items, j, path, key)
}

proof fn refused_for_a_reason(items: Seq<ItemView>, n: nat)
    requires
        n <= items.len(),
        marks_are_well_formed(items),
        service_from_items(items, n) is Err,
    ensures
        exists|i: nat, j: nat| declared_twice(items, i, j),
    decreases n,
{
    let last = (n - 1) as nat;
    if service_from_items(items, last) is Err {
        refused_for_a_reason(items, last);
    } else {
        let service = service_from_items(items, last)->Ok_0;
        let item = items[last as int];
        assert(declare_item(service, item, last) is Err);
        sequences::first_index_exists(item->attrs, syntax::is_marker());
        let attr = syntax::mark_of(item)->0;
        let key = (attr.meta->NameString_0, syntax::arity_of(item->sig.inputs));
        let path = attr.path->0;
        assert(declares(items, last, path, key));
        declared_by_the_first(items, last, key);
        let previous = if path == "method"@ {
            service.methods[key].signature.item
        } else {
            service.notifications[key].item
        };
        assert(declares(items, previous, path, key));
        assert(declared_twice(items, previous, last));
    }
}

/// A service whose marks are well formed is refused exactly where two items that are marked alike
/// declare something under one name and number of parameters.
pub proof fn only_overrides_are_refused(items: Seq<ItemView>)
    requires
        marks_are_well_formed(items),
    ensures
        service_from_items(items, items.len()) is Err <==> exists|i: nat, j: nat|
            declared_twice(items, i, j),
{
    if service_from_items(items, items.len()) is Err {
        refused_for_a_reason(items, items.len());
    } else if exists|i: nat, j: nat| declared_twice(items, i, j) {
        let (i, j) = choose|i: nat, j: nat| declared_twice(items, i, j);
        every_marked_item_is_declared(items, i);
        every_marked_item_is_declared(items, j);
        assert(false);
    }
}

/// A service that is refused is refused for its first item that is wrong: what stands before that
/// item can be read, and what is told of the item is what is wrong with it.
pub proof fn services_are_refused_for_a_reason(items: Seq<ItemView>, n: nat)
    requires
        n <= items.len(),
        service_from_items(items, n) is Err,
    ensures
        ({
            let error = service_from_items(items, n)->Err_0;
            let item = match error {
                ServiceSyntaxErrorView::MethodNameNotString { item } => item,
                ServiceSyntaxErrorView::NotificationNameNotString { item } => item,
                ServiceSyntaxErrorView::InvalidMethodAttribute { item } => item,
                ServiceSyntaxErrorView::InvalidNotificationAttribute { item } => item,
                ServiceSyntaxErrorView::SelfByValue { item, .. } => item,
                ServiceSyntaxErrorView::MutableSelf { item, .. } => item,
                ServiceSyntaxErrorView::PatternArgument { item, .. } => item,
                ServiceSyntaxErrorView::MultipleMethods { item, .. } => item,
                ServiceSyntaxErrorView::MultipleNotifications { item, .. } => item,
            };
            let mark = syntax::mark_of(items[item as int])->0;
            &&& item < n
            &&& service_from_items(items, item) is Ok
            &&& syntax::mark_of(items[item as int]) is Some
            &&& match error {
                ServiceSyntaxErrorView::MethodNameNotString { .. } => mark.path == Some("method"@)
                    && mark.meta is NameOther,
                ServiceSyntaxErrorView::NotificationNameNotString { .. } => mark.path == Some(
                    "notification"@,
                ) && mark.meta is NameOther,
                ServiceSyntaxErrorView::InvalidMethodAttribute { .. } => mark.path == Some(
                    "method"@,
                ) && mark.meta is Other,
                ServiceSyntaxErrorView::InvalidNotificationAttribute { .. } => mark.path == Some(
                    "notification"@,
                ) && mark.meta is Other,
                ServiceSyntaxErrorView::MultipleMethods { name, arity, previous, .. } => {
                    &&& previous < item
                    &&& declares(items, previous, "method"@, (name, arity))
                    &&& declares(items, item, "method"@, (name, arity))
                },
                ServiceSyntaxErrorView::MultipleNotifications { name, arity, previous, .. } => {
                    &&& previous < item
                    &&& declares(items, previous, "notification"@, (name, arity))
                    &&& declares(items, item, "notification"@, (name, arity))
                },
                _ => mark.meta is NameString && signature_from(items[item as int]->sig, item)
                    == Err::<ServiceSignatureView, ServiceSyntaxErrorView>(error),
            }
        }),
    decreases n,
{
    let last = (n - 1) as nat;
    if service_from_items(items, last) is Err {
        services_are_refused_for_a_reason(items, last);
    } else {
        let item = items[last as int];
        sequences::first_index_exists(item->attrs, syntax::is_marker());
        let mark = syntax::mark_of(item)->0;
        let key = (mark.meta->NameString_0, syntax::arity_of(item->sig.inputs));
        declared_by_the_first(items, last, key);
        signature_is_that_of_the_method(item->sig, last, 0);
    }
}

/// Where no argument has a bad form and none is named `self`, there are as many parameters as the
/// arity says.
pub proof fn params_match_arity(inputs: Seq<ArgumentView>)
    requires
        sequences::first_index(inputs, bad_argument()) is None,
        forall|i: int|
            #![trigger inputs[i]]
            0 <= i < inputs.len() ==> inputs[i] != (ArgumentView::Typed { ident: Some("self"@) }),
        forall|i: int| #![trigger inputs[i]] 0 < i < inputs.len() ==> inputs[i] is Typed,
    ensures
        syntax::named_arguments(inputs).len() == syntax::arity_of(inputs),
    decreases inputs.len(),
{
    sequences::first_index_exists(inputs, bad_argument());
    if inputs.len() > 0 {
        let front = inputs.drop_last();
        assert(!bad_argument()(inputs[inputs.len() - 1]));
        assert forall|i: int| 0 <= i < front.len() implies !bad_argument()(#[trigger] front[i]) by {
            assert(front[i] == inputs[i]);
            assert(!bad_argument()(inputs[i]));
        }
        sequences::first_index_exists(front, bad_argument());
        assert forall|i: int|
            #![trigger front[i]]
            0 <= i < front.len() implies front[i] != (ArgumentView::Typed { ident: Some("self"@) }) by {
            assert(front[i] == inputs[i]);
        }
        assert forall|i: int| #![trigger front[i]] 0 < i < front.len() implies front[i] is Typed by {
            assert(front[i] == inputs[i]);
        }
        params_match_arity(front);
        if front.len() > 0 {
            assert(front[0] == inputs[0]);
        } else {
            reveal_with_fuel(syntax::named_arguments, 2);
        }
    }
}

impl ServiceSignature {
    /// Reads how what is declared by the item with the given index is called.
    pub fn parse_signature(sig: &FnSignature, item: usize) -> (read: Result<
        ServiceSignature,
        ServiceSyntaxError,
    >)
        ensures
            signature_read(read) == signature_from(sig@, item as nat),
    {
        let ghost inputs = sig@.inputs;
        let mut is_static = true;
        let mut params: Vec<Param> = Vec::new();
        for arg in 0..sig.inputs.len()
            invariant
                inputs == syntax::args_view(sig.inputs@),
                forall|i: int| #![trigger inputs[i]] 0 <= i < arg ==> !bad_argument()(inputs[i]),
                syntax::params_view(params@) == syntax::named_arguments(inputs.take(arg as int)),
                is_static == without_receiver(inputs.take(arg as int)),
        {
            assert(inputs[arg as int] == sig.inputs@[arg as int]@);
            let ghost seen = inputs.take(arg as int);
            let ghost more = inputs.take(arg + 1);
            assert(more.drop_last() =~= seen);
            assert(more.last() == inputs[arg as int]);
            assert(forall|i: int| #![trigger seen[i]] 0 <= i < arg ==> seen[i] == more[i]);
            match &sig.inputs[arg] {
                Argument::Receiver { reference, mutability } => {
                    if !*reference {
                        proof {
                            sequences::first_index_found(inputs, bad_argument(), arg as int);
                        }
                        return Err(ServiceSyntaxError::SelfByValue { item, arg });
                    }
                    if *mutability {
                        proof {
                            sequences::first_index_found(inputs, bad_argument(), arg as int);
                        }
                        return Err(ServiceSyntaxError::MutableSelf { item, arg });
                    }
                    is_static = false;
                    assert(!(more[arg as int] is Typed));
                },
                Argument::Typed { ident } => match ident {
                    Some(name) => {
                        let ghost before = params@;
                        params.push(Param { name: name.clone(), position: arg });
                        assert(syntax::params_view(params@) =~= syntax::params_view(before).push(
                            params@.last()@,
                        ));
                    },
                    None => {
                        proof {
                            sequences::first_index_found(inputs, bad_argument(), arg as int);
                        }
                        return Err(ServiceSyntaxError::PatternArgument { item, arg });
                    },
                },
            }
        }
        proof {
            sequences::first_index_exists(inputs, bad_argument());
            assert(inputs.take(inputs.len() as int) =~= inputs);
        }
        Ok(
            ServiceSignature {
                params,
                method_impl_name: sig.ident.clone(),
                is_static,
                is_async: sig.asyncness,
                item,
            },
        )
    }

    /// The names of the parameters, in their order.
    pub fn param_names(&self) -> (names: Vec<&String>)
        ensures
            names@.len() == self@.params.len(),
            forall|i: int|
                #![trigger names@[i]]
                0 <= i < names@.len() ==> names@[i]@ == self@.params[i].name,
    {
        let mut names: Vec<&String> = Vec::with_capacity(self.params.len());
        for i in 0..self.params.len()
            invariant
                names@.len() == i,
                forall|k: int|
                    #![trigger names@[k]]
                    0 <= k < i ==> names@[k]@ == self@.params[k].name,
        {
            names.push(&self.params[i].name);
        }
        names
    }
}

/// Takes one more method into a service.
fn add_method(
    service: &mut JsonRpcServiceImpl,
    meta: &AttributeMeta,
    sig: &FnSignature,
    item: usize,
) -> (added: Result<(), ServiceSyntaxError>)
    ensures
        match added {
            Ok(_) => declare_method(old(service)@, meta@, sig@, item as nat) == Ok::<
                JsonRpcServiceImplView,
                ServiceSyntaxErrorView,
            >(final(service)@),
            Err(error) => declare_method(old(service)@, meta@, sig@, item as nat) == Err::<
                JsonRpcServiceImplView,
                ServiceSyntaxErrorView,
            >(error@),
        },
{
    let name = match meta {
        AttributeMeta::NameString(name) => name.clone(),
        AttributeMeta::NameOther => return Err(ServiceSyntaxError::MethodNameNotString { item }),
        AttributeMeta::Other => return Err(ServiceSyntaxError::InvalidMethodAttribute { item }),
    };
    let arity: usize = arity(&sig.inputs);
    let signature = match ServiceSignature::parse_signature(sig, item) {
        Ok(signature) => signature,
        Err(error) => return Err(error),
    };
    match service.methods.get(name.as_str(), arity) {
        Some(previous) => {
            let previous: usize = previous.signature.item;
            return Err(ServiceSyntaxError::MultipleMethods { item, name, arity, previous });
        },
        None => {},
    }
    service.methods.insert(
        name,
        arity,
        ServiceMethodSignature { signature, return_type: sig.output },
    );
    Ok(())
}

/// Takes one more notification into a service.
fn add_notification(
    service: &mut JsonRpcServiceImpl,
    meta: &AttributeMeta,
    sig: &FnSignature,
    item: usize,
) -> (added: Result<(), ServiceSyntaxError>)
    ensures
        match added {
            Ok(_) => declare_notification(old(service)@, meta@, sig@, item as nat) == Ok::<
                JsonRpcServiceImplView,
                ServiceSyntaxErrorView,
            >(final(service)@),
            Err(error) => declare_notification(old(service)@, meta@, sig@, item as nat) == Err::<
                JsonRpcServiceImplView,
                ServiceSyntaxErrorView,
            >(error@),
        },
{
    let name = match meta {
        AttributeMeta::NameString(name) => name.clone(),
        AttributeMeta::NameOther => return Err(
            ServiceSyntaxError::NotificationNameNotString { item },
        ),
        AttributeMeta::Other => return Err(
            ServiceSyntaxError::InvalidNotificationAttribute { item },
        ),
    };
    let arity: usize = arity(&sig.inputs);
    let signature = match ServiceSignature::parse_signature(sig, item) {
        Ok(signature) => signature,
        Err(error) => return Err(error),
    };
    match service.notifications.get(name.as_str(), arity) {
        Some(previous) => {
            let previous: usize = previous.item;
            return Err(ServiceSyntaxError::MultipleNotifications { item, name, arity, previous });
        },
        None => {},
    }
    service.notifications.insert(name, arity, signature);
    Ok(())
}

/// Takes what one more item declares into a service.
fn add_item(service: &mut JsonRpcServiceImpl, item: &Item, index: usize) -> (added: Result<
    (),
    ServiceSyntaxError,
>)
    ensures
        match added {
            Ok(_) => declare_item(old(service)@, item@, index as nat) == Ok::<
                JsonRpcServiceImplView,
                ServiceSyntaxErrorView,
            >(final(service)@),
            Err(error) => declare_item(old(service)@, item@, index as nat) == Err::<
                JsonRpcServiceImplView,
                ServiceSyntaxErrorView,
            >(error@),
        },
{
    match item {
        Item::Other => Ok(()),
        Item::Method { attrs, sig } => match find_marker(attrs) {
            None => Ok(()),
            Some(at) => {
                let attr: &MethodAttribute = &attrs[at];
                assert(syntax::attrs_view(attrs@)[at as int] == attr@);
                if is_ident(attr, "method") {
                    add_method(service, &attr.meta, sig, index)
                } else {
                    add_notification(service, &attr.meta, sig, index)
                }
            },
        },
    }
}

/// Once an item is wrong, what follows does not matter.
proof fn first_error_stays(items: Seq<ItemView>, m: nat, n: nat)
    requires
        m <= n,
        service_from_items(items, m) is Err,
    ensures
        service_from_items(items, n) == service_from_items(items, m),
    decreases n - m,
{
    if m < n {
        first_error_stays(items, m, (n - 1) as nat);
    }
}

impl JsonRpcServiceImpl {
    /// Reads the service that an impl block declares. The attributes that mark its methods are
    /// taken away, unless the declaration is wrong.
    pub fn parse_impl(item_impl: &mut ImplBlock) -> (read: Result<
        JsonRpcServiceImpl,
        ServiceSyntaxError,
    >)
        ensures
            service_read(read) == service_from_items(
                syntax::items_view(old(item_impl).items@),
                old(item_impl).items@.len(),
            ),
            syntax::items_view(final(item_impl).items@) == if read is Ok {
                syntax::items_view(old(item_impl).items@).map_values(
                    |item: ItemView| syntax::without_marker(item),
                )
            } else {
                syntax::items_view(old(item_impl).items@)
            },
    {
        let ghost items = syntax::items_view(item_impl.items@);
        let ghost before = item_impl.items@;
        let mut service = JsonRpcServiceImpl { methods: Table::new(), notifications: Table::new() };
        for index in 0..item_impl.items.len()
            invariant
                item_impl.items@ == before,
                items == syntax::items_view(item_impl.items@),
                items == syntax::items_view(old(item_impl).items@),
                old(item_impl).items@.len() == items.len(),
                service_from_items(items, index as nat) == Ok::<
                    JsonRpcServiceImplView,
                    ServiceSyntaxErrorView,
                >(service@),
        {
            assert(items[index as int] == item_impl.items@[index as int]@);
            match add_item(&mut service, &item_impl.items[index], index) {
                Ok(_) => {},
                Err(error) => {
                    proof {
                        first_error_stays(items, (index + 1) as nat, items.len());
                    }
                    return Err(error);
                },
            }
        }
        let mut marked: Vec<Item> = Vec::new();
        std::mem::swap(&mut marked, &mut item_impl.items);
        item_impl.items = remove_markers(marked);
        Ok(service)
    }
}

impl ServiceSyntaxErrorView {
    /// The error in words.
    pub open spec fn text(self) -> Seq<char> {
        match self {
            ServiceSyntaxErrorView::MethodNameNotString { .. } => "method name must be a string"@,
            ServiceSyntaxErrorView::NotificationNameNotString { .. } =>
                "notification name must be a string"@,
            ServiceSyntaxErrorView::InvalidMethodAttribute { .. } => "Invalid use of attribute"@,
            ServiceSyntaxErrorView::InvalidNotificationAttribute { .. } =>
                "Invalid use of attribute"@,
            ServiceSyntaxErrorView::SelfByValue { .. } => "self must be taken by reference"@,
            ServiceSyntaxErrorView::MutableSelf { .. } => "self reference must be immutable"@,
            ServiceSyntaxErrorView::PatternArgument { .. } => "cannot match on method arguments"@,
            ServiceSyntaxErrorView::MultipleMethods { name, arity, .. } => "multiple overrides of method "@ + name
                + " with arity "@ + text::decimal_text(arity),
            ServiceSyntaxErrorView::MultipleNotifications { name, arity, .. } => "multiple overrides of notification "@ + name
                + " with arity "@ + text::decimal_text(arity),
        }
    }

    /// What would have been right, where it is said.
    pub open spec fn help(self) -> Option<Seq<char>> {
        match self {
            ServiceSyntaxErrorView::InvalidMethodAttribute { .. } => Some(
                "Syntax is #[method = \"method_name\"]"@,
            ),
            ServiceSyntaxErrorView::InvalidNotificationAttribute { .. } => Some(
                "Syntax is #[notification = \"notification_name\"]"@,
            ),
            _ => None,
        }
    }
}

/// Where something is declared twice, its name is told, and its number of parameters at the end; help
/// is given exactly where an attribute is written in a way that is not understood.
pub proof fn service_error_tells_its_cause(error: ServiceSyntaxErrorView)
    ensures
        error matches ServiceSyntaxErrorView::MultipleMethods { name, arity, .. } ==> text::holds(
            error.text(),
            name,
        ) && text::ends_with(error.text(), text::decimal_text(arity)),
        error matches ServiceSyntaxErrorView::MultipleNotifications { name, arity, .. }
            ==> text::holds(error.text(), name) && text::ends_with(
            error.text(),
            text::decimal_text(arity),
        ),
        error.help() is Some <==> error is InvalidMethodAttribute
            || error is InvalidNotificationAttribute,
{
    match error {
        ServiceSyntaxErrorView::MultipleMethods { name, arity, .. } => {
            let front = "multiple overrides of method "@;
            let number = text::decimal_text(arity);
            text::what_is_put_between_stands_there(front, name, " with arity "@ + number);
            text::what_is_put_behind_ends_it(front + name + " with arity "@, number);
            assert(error.text() =~= front + name + (" with arity "@ + number));
        },
        ServiceSyntaxErrorView::MultipleNotifications { name, arity, .. } => {
            let front = "multiple overrides of notification "@;
            let number = text::decimal_text(arity);
            text::what_is_put_between_stands_there(front, name, " with arity "@ + number);
            text::what_is_put_behind_ends_it(front + name + " with arity "@, number);
            assert(error.text() =~= front + name + (" with arity "@ + number));
        },
        _ => {},
    }
}

impl ServiceSyntaxError {
    /// What the error is.
    pub open spec fn view(&self) -> ServiceSyntaxErrorView {
        match *self {
            ServiceSyntaxError::MethodNameNotString { item } =>
                ServiceSyntaxErrorView::MethodNameNotString {
                    item: item as nat,
                },
            ServiceSyntaxError::NotificationNameNotString { item } =>
                ServiceSyntaxErrorView::NotificationNameNotString {
                    item: item as nat,
                },
            ServiceSyntaxError::InvalidMethodAttribute { item } =>
                ServiceSyntaxErrorView::InvalidMethodAttribute {
                    item: item as nat,
                },
            ServiceSyntaxError::InvalidNotificationAttribute { item } =>
                ServiceSyntaxErrorView::InvalidNotificationAttribute {
                    item: item as nat,
                },
            ServiceSyntaxError::SelfByValue { item, arg } => ServiceSyntaxErrorView::SelfByValue {
                item: item as nat,
                arg: arg as nat,
            },
            ServiceSyntaxError::MutableSelf { item, arg } => ServiceSyntaxErrorView::MutableSelf {
                item: item as nat,
                arg: arg as nat,
            },
            ServiceSyntaxError::PatternArgument { item, arg } =>
                ServiceSyntaxErrorView::PatternArgument {
                    item: item as nat,
                    arg: arg as nat,
                },
            ServiceSyntaxError::MultipleMethods { item, name, arity, previous } =>
                ServiceSyntaxErrorView::MultipleMethods {
                    item: item as nat,
                    name: name@,
                    arity: arity as nat,
                    previous: previous as nat,
                },
            ServiceSyntaxError::MultipleNotifications { item, name, arity, previous } =>
                ServiceSyntaxErrorView::MultipleNotifications {
                    item: item as nat,
                    name: name@,
                    arity: arity as nat,
                    previous: previous as nat,
                },
        }
    }

    /// Says in words what is wrong.
    pub fn message(&self) -> (message: String)
        ensures
            message@ == self@.text(),
    {
        match self {
            ServiceSyntaxError::MethodNameNotString { .. } =>
                "method name must be a string".to_owned(),
            ServiceSyntaxError::NotificationNameNotString { .. } =>
                "notification name must be a string".to_owned(),
            ServiceSyntaxError::InvalidMethodAttribute { .. } =>
                "Invalid use of attribute".to_owned(),
            ServiceSyntaxError::InvalidNotificationAttribute { .. } =>
                "Invalid use of attribute".to_owned(),
            ServiceSyntaxError::SelfByValue { .. } => "self must be taken by reference".to_owned(),
            ServiceSyntaxError::MutableSelf { .. } => "self reference must be immutable".to_owned(),
            ServiceSyntaxError::PatternArgument { .. } =>
                "cannot match on method arguments".to_owned(),
            ServiceSyntaxError::MultipleMethods { name, arity, .. } => join(
                join3("multiple overrides of method ", name.as_str(), " with arity ").as_str(),
                decimal(*arity).as_str(),
            ),
            ServiceSyntaxError::MultipleNotifications { name, arity, .. } => join(
                join3("multiple overrides of notification ", name.as_str(), " with arity ").as_str(),
                decimal(*arity).as_str(),
            ),
        }
    }

    /// Says what would have been right, where it is said.
    pub fn help(&self) -> (help: Option<String>)
        ensures
            text::text_option_view(help) == self@.help(),
    {
        match self {
            ServiceSyntaxError::InvalidMethodAttribute { .. } => Some(
                "Syntax is #[method = \"method_name\"]".to_owned(),
            ),
            ServiceSyntaxError::InvalidNotificationAttribute { .. } => Some(
                "Syntax is #[notification = \"notification_name\"]".to_owned(),
            ),
            _ => None,
        }
    }
}

} // verus!
