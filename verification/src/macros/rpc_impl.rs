//! The plain reading of an impl block: each attribute of each method declares something, and
//! nothing is overloaded or refused.

use crate::macros::syntax;
use crate::macros::syntax::{
    is_ident, Argument, ArgumentView, AttributeMeta, Item, ItemView, MethodAttribute,
    MethodAttributeView, Param, ParamView,
};
use vstd::prelude::*;

verus! {

/// A name that goes over the connection, and the parameters behind it.
#[derive(Debug, PartialEq)]
pub struct Signature {
    pub name: String,
    pub params: Vec<Param>,
}

/// What a `Signature` is.
pub struct SignatureView {
    pub name: Seq<char>,
    pub params: Seq<ParamView>,
}

/// A method: its signature, and whether it declares what it returns.
#[derive(Debug, PartialEq)]
pub struct MethodImpl {
    pub signature: Signature,
    pub return_type: bool,
}

/// What a `MethodImpl` is.
pub struct MethodImplView {
    pub signature: SignatureView,
    pub return_type: bool,
}

/// The methods and the notifications of an impl block, in their order.
#[derive(Debug, PartialEq)]
pub struct JsonRpcImpl {
    pub methods: Vec<MethodImpl>,
    pub notifications: Vec<Signature>,
}

/// What a `JsonRpcImpl` is.
pub struct JsonRpcImplView {
    pub methods: Seq<MethodImplView>,
    pub notifications: Seq<SignatureView>,
}

impl Signature {
    /// What the signature is.
    pub open spec fn view(&self) -> SignatureView {
        SignatureView { name: self.name@, params: syntax::params_view(self.params@) }
    }

    /// Reads the signature that an attribute declares for a method with the given arguments.
    pub fn parse_inputs(attr: &MethodAttribute, inputs: &Vec<Argument>) -> (signature: Signature)
        requires
            attr@.meta is NameString,
        ensures
            signature@ == signature_of(attr@, syntax::args_view(inputs@)),
    {
        let name = match &attr.meta {
            AttributeMeta::NameString(name) => name.clone(),
            _ => String::new(),
        };
        let ghost all = syntax::args_view(inputs@);
        let mut params: Vec<Param> = Vec::new();
        for arg in 0..inputs.len()
            invariant
                all == syntax::args_view(inputs@),
                syntax::params_view(params@) == syntax::named_arguments(all.take(arg as int)),
        {
            assert(all[arg as int] == inputs@[arg as int]@);
            assert(all.take(arg + 1).drop_last() =~= all.take(arg as int));
            assert(all.take(arg + 1).last() == all[arg as int]);
            match &inputs[arg] {
                Argument::Typed { ident: Some(name) } => {
                    let ghost before = params@;
                    params.push(Param { name: name.clone(), position: arg });
                    assert(syntax::params_view(params@) =~= syntax::params_view(before).push(
                        params@.last()@,
                    ));
                },
                _ => {},
            }
        }
        assert(all.take(all.len() as int) =~= all);
        Signature { name, params }
    }
}

/// The signature that an attribute declares for a method with the given arguments.
pub open spec fn signature_of(attr: MethodAttributeView, inputs: Seq<ArgumentView>) -> SignatureView {
    SignatureView { name: attr.meta->NameString_0, params: syntax::named_arguments(inputs) }
}

/// What methods are.
pub open spec fn methods_view(methods: Seq<MethodImpl>) -> Seq<MethodImplView> {
    methods.map_values(
        |method: MethodImpl|
            MethodImplView { signature: method.signature@, return_type: method.return_type },
    )
}

/// What signatures are.
pub open spec fn signatures_view(signatures: Seq<Signature>) -> Seq<SignatureView> {
    signatures.map_values(|signature: Signature| signature@)
}

/// Each attribute of the item gives a method or a notification its name.
pub open spec fn attributes_name_something(item: ItemView) -> bool {
    match item {
        ItemView::Method { attrs, .. } => forall|i: int|
            #![trigger attrs[i]]
            0 <= i < attrs.len() ==> attrs[i].meta is NameString && (attrs[i].path == Some(
                "method"@,
            ) || attrs[i].path == Some("notification"@)),
        ItemView::Other => true,
    }
}

/// The block with what the first `n` attributes of an item declare.
pub open spec fn with_attributes(block: JsonRpcImplView, item: ItemView, n: nat) -> JsonRpcImplView
    decreases n,
{
    match item {
        ItemView::Other => block,
        ItemView::Method { attrs, sig } => if n == 0 {
            block
        } else {
            let before = with_attributes(block, item, (n - 1) as nat);
            let signature = signature_of(attrs[n - 1], sig.inputs);
            if attrs[n - 1].path == Some("method"@) {
                JsonRpcImplView {
                    methods: before.methods.push(
                        MethodImplView { signature, return_type: sig.output },
                    ),
                    ..before
                }
            } else {
                JsonRpcImplView { notifications: before.notifications.push(signature), ..before }
            }
        },
    }
}

/// How many attributes an item has.
pub open spec fn attribute_count(item: ItemView) -> nat {
    match item {
        ItemView::Method { attrs, .. } => attrs.len(),
        ItemView::Other => 0,
    }
}

/// What the first `n` items declare.
pub open spec fn block_of(items: Seq<ItemView>, n: nat) -> JsonRpcImplView
    decreases n,
{
    if n == 0 {
        JsonRpcImplView { methods: Seq::empty(), notifications: Seq::empty() }
    } else {
        with_attributes(
            block_of(items, (n - 1) as nat),
            items[n - 1],
            attribute_count(items[n - 1]),
        )
    }
}

/// How many of the first `n` attributes of an item name a method.
pub open spec fn methods_named(item: ItemView, n: nat) -> nat
    decreases n,
{
    if n == 0 || !(item is Method) {
        0
    } else {
        methods_named(item, (n - 1) as nat) + if item->attrs[n - 1].path == Some("method"@) {
            1nat
        } else {
            0nat
        }
    }
}

proof fn attributes_are_declared_up_to(block: JsonRpcImplView, item: ItemView, n: nat, i: int)
    requires
        item is Method,
        0 <= i < n <= item->attrs.len(),
    ensures
        ({
            let after = with_attributes(block, item, n);
            let attr = item->attrs[i];
            let params = syntax::named_arguments(item->sig.inputs);
            let before = methods_named(item, i as nat);
            &&& methods_named(item, n) <= n
            &&& before <= i
            &&& after.methods.len() == block.methods.len() + methods_named(item, n)
            &&& after.notifications.len() == block.notifications.len() + (n - methods_named(
                item,
                n,
            ))
            &&& forall|k: int|
                #![trigger after.methods[k]]
                0 <= k < block.methods.len() ==> after.methods[k] == block.methods[k]
            &&& forall|k: int|
                #![trigger after.notifications[k]]
                0 <= k < block.notifications.len() ==> after.notifications[k]
                    == block.notifications[k]
            &&& attr.path == Some("method"@) ==> {
                &&& before < methods_named(item, n)
                &&& after.methods[(block.methods.len() + before) as int] == MethodImplView {
                    signature: SignatureView { name: attr.meta->NameString_0, params },
                    return_type: item->sig.output,
                }
            }
            &&& attr.path != Some("method"@) ==> {
                &&& i - before < n - methods_named(item, n)
                &&& after.notifications[block.notifications.len() + (i - before)]
                    == SignatureView { name: attr.meta->NameString_0, params }
            }
        }),
    decreases n,
{
    if i < n - 1 {
        attributes_are_declared_up_to(block, item, (n - 1) as nat, i);
    } else if n > 1 {
        attributes_are_declared_up_to(block, item, (n - 1) as nat, 0);
    } else {
        reveal_with_fuel(with_attributes, 2);
        reveal_with_fuel(methods_named, 2);
    }
}

/// Each attribute of an item declares one method or one notification, with the name that it gives
/// and the parameters of the item: they stand behind those that were declared before, in the order
/// of the attributes.
pub proof fn each_attribute_is_declared(block: JsonRpcImplView, item: ItemView, i: int)
    requires
        item is Method,
        0 <= i < item->attrs.len(),
    ensures
        ({
            let after = with_attributes(block, item, attribute_count(item));
            let attr = item->attrs[i];
            let params = syntax::named_arguments(item->sig.inputs);
            let before = methods_named(item, i as nat);
            &&& after.methods.len() + after.notifications.len() == block.methods.len()
                + block.notifications.len() + item->attrs.len()
            &&& forall|k: int|
                #![trigger after.methods[k]]
                0 <= k < block.methods.len() ==> after.methods[k] == block.methods[k]
            &&& forall|k: int|
                #![trigger after.notifications[k]]
                0 <= k < block.notifications.len() ==> after.notifications[k]
                    == block.notifications[k]
            &&& attr.path == Some("method"@) ==> {
                &&& block.methods.len() + before < after.methods.len()
                &&& after.methods[(block.methods.len() + before) as int] == MethodImplView {
                    signature: SignatureView { name: attr.meta->NameString_0, params },
                    return_type: item->sig.output,
                }
            }
            &&& attr.path != Some("method"@) ==> {
                &&& block.notifications.len() + (i - before) < after.notifications.len()
                &&& after.notifications[block.notifications.len() + (i - before)]
                    == SignatureView { name: attr.meta->NameString_0, params }
            }
        }),
{
    attributes_are_declared_up_to(block, item, item->attrs.len(), i);
}

/// What the items of a block declare stands in their order: first what those in front declare, then
/// what the last of them declares. An item that is no method declares nothing.
pub proof fn items_are_declared_in_order(items: Seq<ItemView>, n: nat, k: int)
    requires
        n < items.len(),
    ensures
        ({
            let before = block_of(items, n);
            let after = block_of(items, n + 1);
            &&& block_of(items, 0).methods.len() == 0
            &&& block_of(items, 0).notifications.len() == 0
            &&& !(items[n as int] is Method) ==> after == before
            &&& before.methods.len() <= after.methods.len()
            &&& before.notifications.len() <= after.notifications.len()
            &&& 0 <= k < before.methods.len() ==> after.methods[k] == before.methods[k]
            &&& 0 <= k < before.notifications.len() ==> after.notifications[k]
                == before.notifications[k]
        }),
{
    let item = items[n as int];
    if item is Method {
        if item->attrs.len() > 0 {
            attributes_are_declared_up_to(block_of(items, n), item, item->attrs.len(), 0);
        }
    }
}

impl JsonRpcImpl {
    /// What the block is.
    pub open spec fn view(&self) -> JsonRpcImplView {
        JsonRpcImplView {
            methods: methods_view(self.methods@),
            notifications: signatures_view(self.notifications@),
        }
    }

    /// Takes in what the attributes of one more item declare.
    fn add_item(&mut self, item: &Item)
        requires
            attributes_name_something(item@),
        ensures
            final(self)@ == with_attributes(old(self)@, item@, attribute_count(item@)),
    {
        let ghost before = self@;
        match item {
            Item::Other => {},
            Item::Method { attrs, sig } => {
                let ghost attributes = syntax::attrs_view(attrs@);
                for index in 0..attrs.len()
                    invariant
                        attributes == syntax::attrs_view(attrs@),
                        item@ == (ItemView::Method { attrs: attributes, sig: sig@ }),
                        attributes_name_something(item@),
                        self@ == with_attributes(before, item@, index as nat),
                {
                    assert(attributes[index as int] == attrs@[index as int]@);
                    let attr = &attrs[index];
                    let signature = Signature::parse_inputs(attr, &sig.inputs);
                    if is_ident(attr, "method") {
                        let ghost methods = self.methods@;
                        self.methods.push(MethodImpl { signature, return_type: sig.output });
                        assert(methods_view(self.methods@) =~= methods_view(methods).push(
                            MethodImplView { signature: signature@, return_type: sig.output },
                        ));
                    } else {
                        let ghost notifications = self.notifications@;
                        self.notifications.push(signature);
                        assert(signatures_view(self.notifications@) =~= signatures_view(
                            notifications,
                        ).push(signature@));
                    }
                }
            },
        }
    }

    /// Reads what the items of an impl block declare.
    pub fn parse_impl(items: &Vec<Item>) -> (block: JsonRpcImpl)
        requires
            forall|i: int|
                #![trigger items@[i]]
                0 <= i < items@.len() ==> attributes_name_something(items@[i]@),
        ensures
            block@ == block_of(syntax::items_view(items@), items@.len()),
    {
        let ghost all = syntax::items_view(items@);
        let mut block = JsonRpcImpl { methods: Vec::new(), notifications: Vec::new() };
        assert(methods_view(block.methods@) =~= Seq::empty());
        assert(signatures_view(block.notifications@) =~= Seq::empty());
        for index in 0..items.len()
            invariant
                all == syntax::items_view(items@),
                forall|i: int|
                    #![trigger items@[i]]
                    0 <= i < items@.len() ==> attributes_name_something(items@[i]@),
                block@ == block_of(all, index as nat),
        {
            assert(all[index as int] == items@[index as int]@);
            block.add_item(&items[index]);
        }
        block
    }
}

} // verus!
