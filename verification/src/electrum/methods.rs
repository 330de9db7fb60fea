//! The methods of the protocol, by name and number of parameters.

use crate::macros::dispatch;
use crate::macros::service;
use crate::macros::service::{
    ImplBlock, JsonRpcServiceImpl, JsonRpcServiceImplView, ServiceSyntaxError,
};
use crate::macros::syntax;
use crate::macros::syntax::{
    Argument, ArgumentView, AttributeMeta, AttributeMetaView, FnSignature, FnSignatureView, Item,
    ItemView, MethodAttribute, MethodAttributeView,
};
use crate::sequences;
use vstd::prelude::*;

verus! {

/// A method: the name that goes over the connection, its identifier, its parameters, and whether
/// it has a receiver.
pub struct MethodView {
    pub name: Seq<char>,
    pub ident: Seq<char>,
    pub params: Seq<Seq<char>>,
    pub receiver: bool,
}

/// The arguments of a method: the receiver, if it has one, and then its parameters.
pub open spec fn inputs_of(method: MethodView) -> Seq<ArgumentView> {
    let params = method.params.map_values(
        |name: Seq<char>| ArgumentView::Typed { ident: Some(name) },
    );
    if method.receiver {
        seq![ArgumentView::Receiver { reference: true, mutability: false }] + params
    } else {
        params
    }
}

/// The item that declares a method.
pub open spec fn declaration(method: MethodView) -> ItemView {
    ItemView::Method {
        attrs: seq![
            MethodAttributeView {
                path: Some("method"@),
                meta: AttributeMetaView::NameString(method.name),
            },
        ],
        sig: FnSignatureView {
            ident: method.ident,
            asyncness: true,
            inputs: inputs_of(method),
            output: true,
        },
    }
}

/// The methods of the protocol.
pub open spec fn protocol_methods() -> Seq<MethodView> {
    seq![
        MethodView {
            name: "blockchain.scripthash.get_history"@,
            ident: "scripthash_get_history"@,
            params: seq!["scripthash"@],
            receiver: true,
        },
        MethodView {
            name: "blockchain.scripthash.subscribe"@,
            ident: "scripthash_subscribe"@,
            params: seq!["scripthash"@],
            receiver: true,
        },
        MethodView {
            name: "blockchain.transaction.broadcast"@,
            ident: "transaction_broadcast"@,
            params: seq!["raw_tx"@],
            receiver: true,
        },
        MethodView {
            name: "blockchain.transaction.get"@,
            ident: "transaction_get"@,
            params: seq!["tx_hash"@],
            receiver: true,
        },
        MethodView {
            name: "blockchain.transaction.get"@,
            ident: "transaction_get_verbose"@,
            params: seq!["tx_hash"@, "verbose"@],
            receiver: true,
        },
        MethodView {
            name: "blockchain.transaction.get_merkle"@,
            ident: "transaction_get_merkle"@,
            params: seq!["tx_hash"@, "height"@],
            receiver: true,
        },
        MethodView {
            name: "server.banner"@,
            ident: "banner"@,
            params: seq![],
            receiver: false,
        },
        MethodView {
            name: "server.donation_address"@,
            ident: "donation_address"@,
            params: seq![],
            receiver: false,
        },
        MethodView {
            name: "server.peers.subscribe"@,
            ident: "peers_subscribe"@,
            params: seq![],
            receiver: false,
        },
        MethodView {
            name: "blockchain.block.header"@,
            ident: "block_header"@,
            params: seq!["height"@],
            receiver: true,
        },
        MethodView {
            name: "blockchain.block.header"@,
            ident: "block_header_checkpoint"@,
            params: seq!["height"@, "cp_height"@],
            receiver: true,
        },
        MethodView {
            name: "blockchain.block.headers"@,
            ident: "block_headers"@,
            params: seq!["start_height"@, "count"@],
            receiver: true,
        },
        MethodView {
            name: "blockchain.block.headers"@,
            ident: "block_headers_checkpoint"@,
            params: seq!["start_height"@, "count"@, "cp_height"@],
            receiver: true,
        },
        MethodView {
            name: "blockchain.estimatefee"@,
            ident: "estimate_fee"@,
            params: seq!["number"@],
            receiver: true,
        },
        MethodView {
            name: "blockchain.headers.subscribe"@,
            ident: "headers_subscribe"@,
            params: seq![],
            receiver: true,
        },
        MethodView {
            name: "blockchain.relayfee"@,
            ident: "relayfee"@,
            params: seq![],
            receiver: true,
        },
        MethodView {
            name: "mempool.get_fee_histogram"@,
            ident: "get_fee_histogram"@,
            params: seq![],
            receiver: true,
        },
        MethodView { name: "server.ping"@, ident: "ping"@, params: seq![], receiver: false },
        MethodView {
            name: "server.version"@,
            ident: "version_anonymous_client"@,
            params: seq![],
            receiver: true,
        },
        MethodView {
            name: "server.version"@,
            ident: "version_default_protocol"@,
            params: seq!["client_name"@],
            receiver: true,
        },
        MethodView {
            name: "server.version"@,
            ident: "version"@,
            params: seq!["client_name"@, "protocol_version"@],
            receiver: true,
        },
    ]
}

/// The items that declare methods.
pub open spec fn declarations(methods: Seq<MethodView>) -> Seq<ItemView> {
    methods.map_values(|method: MethodView| declaration(method))
}

/// No two methods have both the same name and the same number of parameters, and no parameter is
/// named `self`.
pub open spec fn methods_differ(methods: Seq<MethodView>) -> bool {
    &&& forall|i: int, j: int|
        #![trigger methods[i], methods[j]]
        0 <= i < j < methods.len() ==> methods[i].name != methods[j].name
            || methods[i].params.len() != methods[j].params.len()
    &&& forall|i: int, k: int|
        #![trigger methods[i].params[k]]
        0 <= i < methods.len() && 0 <= k < methods[i].params.len() ==> methods[i].params[k]
            != "self"@
}

/// A declaration is read as the method that it declares.
proof fn declaration_is_read(method: MethodView, item: nat)
    requires
        forall|k: int|
            #![trigger method.params[k]]
            0 <= k < method.params.len() ==> method.params[k] != "self"@,
    ensures
        syntax::marker(declaration(method)->attrs) == Some(0int),
        service::signature_from(declaration(method)->sig, item) is Ok,
        service::signature_from(declaration(method)->sig, item)->Ok_0.item == item,
        syntax::arity_of(inputs_of(method)) == method.params.len(),
        dispatch::plain_arguments(declaration(method)),
{
    let attrs = declaration(method)->attrs;
    assert(sequences::is_first_index(attrs, syntax::is_marker(), 0));
    sequences::first_index_found(attrs, syntax::is_marker(), 0);
    let inputs = inputs_of(method);
    assert forall|i: int| 0 <= i < inputs.len() implies !service::bad_argument()(
        #[trigger] inputs[i],
    ) && inputs[i] != (ArgumentView::Typed { ident: Some("self"@) }) && (i > 0 ==> inputs[i] is Typed) by {
        let k = if method.receiver {
            i - 1
        } else {
            i
        };
        if k >= 0 {
            assert(inputs[i] == (ArgumentView::Typed { ident: Some(method.params[k]) }));
        }
    }
    sequences::first_index_exists(inputs, service::bad_argument());
}

/// A method is called by its identifier, with the parameters that it has, in their order, and without
/// a receiver where it has none.
pub proof fn method_is_called_with_its_params(method: MethodView, item: nat, k: int)
    requires
        forall|k: int|
            #![trigger method.params[k]]
            0 <= k < method.params.len() ==> method.params[k] != "self"@,
    ensures
        service::signature_from(declaration(method)->sig, item) is Ok,
        ({
            let signature = service::signature_from(declaration(method)->sig, item)->Ok_0;
            &&& signature.method_impl_name == method.ident
            &&& signature.is_static == !method.receiver
            &&& signature.is_async
            &&& signature.item == item
            &&& signature.params.len() == method.params.len()
            &&& 0 <= k < method.params.len() ==> signature.params[k].name == method.params[k]
        }),
        syntax::mark_of(declaration(method)) is Some,
        syntax::mark_of(declaration(method))->0.path == Some("method"@),
        syntax::mark_of(declaration(method))->0.meta == AttributeMetaView::NameString(method.name),
{
    declaration_is_read(method, item);
    let inputs = inputs_of(method);
    let n: nat = if method.receiver {
        1
    } else {
        0
    };
    assert forall|i: int| #![trigger inputs[i]] n <= i < inputs.len() implies inputs[i] == (
    ArgumentView::Typed { ident: Some(method.params[i - n]) }) by {}
    syntax::params_are_the_rest(inputs, n);
    if method.receiver {
        assert(inputs[0] is Receiver);
    }
}

/// Methods that differ make up a service: each is what its name and its number of parameters stand
/// for.
pub proof fn methods_make_a_service(methods: Seq<MethodView>, n: nat)
    requires
        methods_differ(methods),
        n <= methods.len(),
    ensures
        service::service_from_items(declarations(methods), n) is Ok,
        forall|i: int|
            #![trigger methods[i]]
            0 <= i < n ==> {
                let service = service::service_from_items(declarations(methods), n)->Ok_0;
                let key = (methods[i].name, methods[i].params.len());
                &&& service.methods.contains_key(key)
                &&& service.methods[key].signature.item == i
            },
        forall|name: Seq<char>, arity: nat| #[trigger]
            service::service_from_items(declarations(methods), n)->Ok_0.methods.contains_key(
                (name, arity),
            ) ==> exists|i: int|
                #![trigger methods[i]]
                0 <= i < n && methods[i].name == name && methods[i].params.len() == arity,
    decreases n,
{
    if n > 0 {
        let last = methods[n - 1];
        methods_make_a_service(methods, (n - 1) as nat);
        declaration_is_read(last, (n - 1) as nat);
        let items = declarations(methods);
        assert(items[n - 1] == declaration(last));
        let before = service::service_from_items(items, (n - 1) as nat)->Ok_0;
        let key = (last.name, last.params.len());
        assert(!before.methods.contains_key(key)) by {
            if before.methods.contains_key((last.name, last.params.len())) {
                let i = choose|i: int|
                    #![trigger methods[i]]
                    0 <= i < n - 1 && methods[i].name == last.name && methods[i].params.len()
                        == last.params.len();
                assert(methods[i].name != methods[n - 1].name || methods[i].params.len()
                    != methods[n - 1].params.len());
            }
        }
        let after = service::service_from_items(items, n)->Ok_0;
        assert forall|i: int| #![trigger methods[i]] 0 <= i < n implies after.methods.contains_key(
            (methods[i].name, methods[i].params.len()),
        ) && after.methods[(methods[i].name, methods[i].params.len())].signature.item == i by {
            if i < n - 1 {
                assert(methods[i].name != methods[n - 1].name || methods[i].params.len()
                    != methods[n - 1].params.len());
            }
        }
        assert forall|name: Seq<char>, arity: nat| #[trigger]
            after.methods.contains_key((name, arity)) implies exists|i: int|
                #![trigger methods[i]]
                0 <= i < n && methods[i].name == name && methods[i].params.len() == arity by {
            if (name, arity) == key {
                assert(methods[n - 1].name == name && methods[n - 1].params.len() == arity);
            } else {
                assert(before.methods.contains_key((name, arity)));
                let i = choose|i: int|
                    #![trigger methods[i]]
                    0 <= i < n - 1 && methods[i].name == name && methods[i].params.len() == arity;
                assert(methods[i].name == name && methods[i].params.len() == arity);
            }
        }
    }
}

/// The index of a method of the protocol, going by its number of parameters and by the length of
/// its name.
spec fn place(method: MethodView) -> int {
    let arity = method.params.len();
    let len = method.name.len();
    if arity == 0 {
        if len == 13 {
            6
        } else if len == 23 {
            7
        } else if len == 22 {
            8
        } else if len == 28 {
            14
        } else if len == 19 {
            15
        } else if len == 25 {
            16
        } else if len == 11 {
            17
        } else if len == 14 {
            18
        } else {
            -1
        }
    } else if arity == 1 {
        if len == 33 {
            0
        } else if len == 31 {
            1
        } else if len == 32 {
            2
        } else if len == 26 {
            3
        } else if len == 23 {
            9
        } else if len == 22 {
            13
        } else if len == 14 {
            19
        } else {
            -1
        }
    } else if arity == 2 {
        if len == 26 {
            4
        } else if len == 33 {
            5
        } else if len == 23 {
            10
        } else if len == 24 {
            11
        } else if len == 14 {
            20
        } else {
            -1
        }
    } else if arity == 3 {
        if len == 24 {
            12
        } else {
            -1
        }
    } else {
        -1
    }
}

proof fn method_is_in_place(i: int)
    requires
        0 <= i < protocol_methods().len(),
    ensures
        place(protocol_methods()[i]) == i,
{
    reveal_strlit("blockchain.scripthash.get_history");
    reveal_strlit("blockchain.scripthash.subscribe");
    reveal_strlit("blockchain.transaction.broadcast");
    reveal_strlit("blockchain.transaction.get");
    reveal_strlit("blockchain.transaction.get_merkle");
    reveal_strlit("server.banner");
    reveal_strlit("server.donation_address");
    reveal_strlit("server.peers.subscribe");
    reveal_strlit("blockchain.block.header");
    reveal_strlit("blockchain.block.headers");
    reveal_strlit("blockchain.estimatefee");
    reveal_strlit("blockchain.headers.subscribe");
    reveal_strlit("blockchain.relayfee");
    reveal_strlit("mempool.get_fee_histogram");
    reveal_strlit("server.ping");
    reveal_strlit("server.version");
    if i == 0 {
        assert(place(protocol_methods()[0]) == 0);
    } else if i == 1 {
        assert(place(protocol_methods()[1]) == 1);
    } else if i == 2 {
        assert(place(protocol_methods()[2]) == 2);
    } else if i == 3 {
        assert(place(protocol_methods()[3]) == 3);
    } else if i == 4 {
        assert(place(protocol_methods()[4]) == 4);
    } else if i == 5 {
        assert(place(protocol_methods()[5]) == 5);
    } else if i == 6 {
        assert(place(protocol_methods()[6]) == 6);
    } else if i == 7 {
        assert(place(protocol_methods()[7]) == 7);
    } else if i == 8 {
        assert(place(protocol_methods()[8]) == 8);
    } else if i == 9 {
        assert(place(protocol_methods()[9]) == 9);
    } else if i == 10 {
        assert(place(protocol_methods()[10]) == 10);
    } else if i == 11 {
        assert(place(protocol_methods()[11]) == 11);
    } else if i == 12 {
        assert(place(protocol_methods()[12]) == 12);
    } else if i == 13 {
        assert(place(protocol_methods()[13]) == 13);
    } else if i == 14 {
        assert(place(protocol_methods()[14]) == 14);
    } else if i == 15 {
        assert(place(protocol_methods()[15]) == 15);
    } else if i == 16 {
        assert(place(protocol_methods()[16]) == 16);
    } else if i == 17 {
        assert(place(protocol_methods()[17]) == 17);
    } else if i == 18 {
        assert(place(protocol_methods()[18]) == 18);
    } else if i == 19 {
        assert(place(protocol_methods()[19]) == 19);
    } else if i == 20 {
        assert(place(protocol_methods()[20]) == 20);
    }
}

proof fn param_is_named(i: int, k: int)
    requires
        0 <= i < protocol_methods().len(),
        0 <= k < protocol_methods()[i].params.len(),
    ensures
        protocol_methods()[i].params[k] != "self"@,
{
    reveal_strlit("self");
    reveal_strlit("scripthash");
    reveal_strlit("raw_tx");
    reveal_strlit("tx_hash");
    reveal_strlit("verbose");
    reveal_strlit("height");
    reveal_strlit("cp_height");
    reveal_strlit("start_height");
    reveal_strlit("count");
    reveal_strlit("number");
    reveal_strlit("client_name");
    reveal_strlit("protocol_version");
    assert("self"@.len() == 4);
    if i == 0 {
        assert(protocol_methods()[0].params.len() == 1);
        if k == 0 {
            assert(protocol_methods()[0].params[0].len() == 10);
        }
    } else if i == 1 {
        assert(protocol_methods()[1].params.len() == 1);
        if k == 0 {
            assert(protocol_methods()[1].params[0].len() == 10);
        }
    } else if i == 2 {
        assert(protocol_methods()[2].params.len() == 1);
        if k == 0 {
            assert(protocol_methods()[2].params[0].len() == 6);
        }
    } else if i == 3 {
        assert(protocol_methods()[3].params.len() == 1);
        if k == 0 {
            assert(protocol_methods()[3].params[0].len() == 7);
        }
    } else if i == 4 {
        assert(protocol_methods()[4].params.len() == 2);
        if k == 0 {
            assert(protocol_methods()[4].params[0].len() == 7);
        } else if k == 1 {
            assert(protocol_methods()[4].params[1].len() == 7);
        }
    } else if i == 5 {
        assert(protocol_methods()[5].params.len() == 2);
        if k == 0 {
            assert(protocol_methods()[5].params[0].len() == 7);
        } else if k == 1 {
            assert(protocol_methods()[5].params[1].len() == 6);
        }
    } else if i == 6 {
        assert(protocol_methods()[6].params.len() == 0);
    } else if i == 7 {
        assert(protocol_methods()[7].params.len() == 0);
    } else if i == 8 {
        assert(protocol_methods()[8].params.len() == 0);
    } else if i == 9 {
        assert(protocol_methods()[9].params.len() == 1);
        if k == 0 {
            assert(protocol_methods()[9].params[0].len() == 6);
        }
    } else if i == 10 {
        assert(protocol_methods()[10].params.len() == 2);
        if k == 0 {
            assert(protocol_methods()[10].params[0].len() == 6);
        } else if k == 1 {
            assert(protocol_methods()[10].params[1].len() == 9);
        }
    } else if i == 11 {
        assert(protocol_methods()[11].params.len() == 2);
        if k == 0 {
            assert(protocol_methods()[11].params[0].len() == 12);
        } else if k == 1 {
            assert(protocol_methods()[11].params[1].len() == 5);
        }
    } else if i == 12 {
        assert(protocol_methods()[12].params.len() == 3);
        if k == 0 {
            assert(protocol_methods()[12].params[0].len() == 12);
        } else if k == 1 {
            assert(protocol_methods()[12].params[1].len() == 5);
        } else if k == 2 {
            assert(protocol_methods()[12].params[2].len() == 9);
        }
    } else if i == 13 {
        assert(protocol_methods()[13].params.len() == 1);
        if k == 0 {
            assert(protocol_methods()[13].params[0].len() == 6);
        }
    } else if i == 14 {
        assert(protocol_methods()[14].params.len() == 0);
    } else if i == 15 {
        assert(protocol_methods()[15].params.len() == 0);
    } else if i == 16 {
        assert(protocol_methods()[16].params.len() == 0);
    } else if i == 17 {
        assert(protocol_methods()[17].params.len() == 0);
    } else if i == 18 {
        assert(protocol_methods()[18].params.len() == 0);
    } else if i == 19 {
        assert(protocol_methods()[19].params.len() == 1);
        if k == 0 {
            assert(protocol_methods()[19].params[0].len() == 11);
        }
    } else if i == 20 {
        assert(protocol_methods()[20].params.len() == 2);
        if k == 0 {
            assert(protocol_methods()[20].params[0].len() == 11);
        } else if k == 1 {
            assert(protocol_methods()[20].params[1].len() == 16);
        }
    }
}

/// The methods of the protocol differ, so that each can be called.
pub proof fn protocol_methods_differ()
    ensures
        methods_differ(protocol_methods()),
{
    let methods = protocol_methods();
    assert forall|i: int, j: int|
        #![trigger methods[i], methods[j]]
        0 <= i < j < methods.len() implies methods[i].name != methods[j].name
        || methods[i].params.len() != methods[j].params.len() by {
        method_is_in_place(i);
        method_is_in_place(j);
    }
    assert forall|i: int, k: int|
        #![trigger methods[i].params[k]]
        0 <= i < methods.len() && 0 <= k < methods[i].params.len() implies methods[i].params[k]
        != "self"@ by {
        param_is_named(i, k);
    }
}

/// A service takes a method under a name, with the given parameters in their order, and calls it by
/// the given identifier.
pub open spec fn takes(
    service: JsonRpcServiceImplView,
    name: Seq<char>,
    params: Seq<Seq<char>>,
    ident: Seq<char>,
) -> bool {
    let signature = service.methods[(name, params.len())].signature;
    &&& service.methods.contains_key((name, params.len()))
    &&& signature.method_impl_name == ident
    &&& signature.params.len() == params.len()
    &&& forall|k: int|
        #![trigger signature.params[k]]
        0 <= k < params.len() ==> signature.params[k].name == params[k]
}

/// The service that methods make up takes each of them.
pub proof fn each_method_is_taken(methods: Seq<MethodView>, i: int)
    requires
        methods_differ(methods),
        0 <= i < methods.len(),
    ensures
        service::service_from_items(declarations(methods), methods.len()) is Ok,
        takes(
            service::service_from_items(declarations(methods), methods.len())->Ok_0,
            methods[i].name,
            methods[i].params,
            methods[i].ident,
        ),
{
    let items = declarations(methods);
    let method = methods[i];
    let key = (method.name, method.params.len());
    methods_make_a_service(methods, methods.len());
    service::nothing_else_is_declared(items, key);
    let signature = service::service_from_items(items, methods.len())->Ok_0.methods[key].signature;
    assert(items[i] == declaration(method));
    assert forall|k: int|
        #![trigger method.params[k]]
        0 <= k < method.params.len() implies method.params[k] != "self"@ by {
        assert(methods[i].params[k] != "self"@);
    }
    method_is_called_with_its_params(method, i as nat, 0);
    assert forall|k: int|
        #![trigger signature.params[k]]
        0 <= k < method.params.len() implies signature.params[k].name == method.params[k] by {
        method_is_called_with_its_params(method, i as nat, k);
    }
}

/// What texts are.
pub open spec fn texts_view(texts: Seq<&str>) -> Seq<Seq<char>> {
    texts.map_values(|text: &str| text@)
}

/// Makes the item that declares a method.
fn declare(name: &str, ident: &str, params: Vec<&str>, receiver: bool) -> (item: Item)
    ensures
        item@ == declaration(
            MethodView { name: name@, ident: ident@, params: texts_view(params@), receiver },
        ),
{
    let ghost method = MethodView {
        name: name@,
        ident: ident@,
        params: texts_view(params@),
        receiver,
    };
    let mut inputs: Vec<Argument> = Vec::new();
    if receiver {
        inputs.push(Argument::Receiver { reference: true, mutability: false });
    }
    let ghost first = inputs@;
    for i in 0..params.len()
        invariant
            inputs@.len() == first.len() + i,
            forall|k: int|
                #![trigger inputs@[k]]
                0 <= k < first.len() ==> inputs@[k] == first[k],
            forall|k: int|
                #![trigger inputs@[first.len() + k]]
                0 <= k < i ==> inputs@[first.len() + k]@ == (ArgumentView::Typed {
                    ident: Some(params@[k]@),
                }),
    {
        inputs.push(Argument::Typed { ident: Some(params[i].to_owned()) });
    }
    let mut attrs: Vec<MethodAttribute> = Vec::new();
    attrs.push(
        MethodAttribute {
            path: Some("method".to_owned()),
            meta: AttributeMeta::NameString(name.to_owned()),
        },
    );
    proof {
        let all = syntax::args_view(inputs@);
        let expected = inputs_of(method);
        assert forall|k: int| 0 <= k < all.len() implies #[trigger] all[k] == expected[k] by {
            if k < first.len() {
                assert(inputs@[k] == first[k]);
            } else {
                assert(inputs@[first.len() + (k - first.len())]@ == (ArgumentView::Typed {
                    ident: Some(params@[k - first.len()]@),
                }));
            }
        }
        assert(all =~= expected);
        assert(syntax::attrs_view(attrs@) =~= declaration(method)->attrs);
    }
    Item::Method {
        attrs,
        sig: FnSignature { ident: ident.to_owned(), asyncness: true, inputs, output: true },
    }
}

/// Makes the item that declares a method with no parameters.
fn declare_nullary(name: &str, ident: &str, receiver: bool) -> (item: Item)
    ensures
        item@ == declaration(
            MethodView {
                name: name@,
                ident: ident@,
                params: seq![],
                receiver,
            },
        ),
{
    let params: Vec<&str> = Vec::new();
    assert(texts_view(params@) =~= seq![]);
    declare(name, ident, params, receiver)
}

/// Makes the item that declares a method with one parameter.
fn declare_unary(name: &str, ident: &str, a: &str, receiver: bool) -> (item: Item)
    ensures
        item@ == declaration(
            MethodView {
                name: name@,
                ident: ident@,
                params: seq![a@],
                receiver,
            },
        ),
{
    let params: Vec<&str> = vec![a];
    assert(texts_view(params@) =~= seq![a@]);
    declare(name, ident, params, receiver)
}

/// Makes the item that declares a method with two parameters.
fn declare_binary(name: &str, ident: &str, a: &str, b: &str, receiver: bool) -> (item: Item)
    ensures
        item@ == declaration(
            MethodView {
                name: name@,
                ident: ident@,
                params: seq![a@, b@],
                receiver,
            },
        ),
{
    let params: Vec<&str> = vec![a, b];
    assert(texts_view(params@) =~= seq![a@, b@]);
    declare(name, ident, params, receiver)
}

/// Makes the item that declares a method with three parameters.
fn declare_ternary(name: &str, ident: &str, a: &str, b: &str, c: &str, receiver: bool) -> (item: Item)
    ensures
        item@ == declaration(
            MethodView {
                name: name@,
                ident: ident@,
                params: seq![a@, b@, c@],
                receiver,
            },
        ),
{
    let params: Vec<&str> = vec![a, b, c];
    assert(texts_view(params@) =~= seq![a@, b@, c@]);
    declare(name, ident, params, receiver)
}

/// Makes the items that declare the methods of the protocol.
pub fn protocol_items() -> (items: Vec<Item>)
    ensures
        syntax::items_view(items@) == declarations(protocol_methods()),
{
    let mut items: Vec<Item> = Vec::new();
    items.push(
        declare_unary(
            "blockchain.scripthash.get_history",
            "scripthash_get_history",
            "scripthash",
            true,
        ),
    );
    items.push(
        declare_unary(
            "blockchain.scripthash.subscribe",
            "scripthash_subscribe",
            "scripthash",
            true,
        ),
    );
    items.push(
        declare_unary("blockchain.transaction.broadcast", "transaction_broadcast", "raw_tx", true),
    );
    items.push(declare_unary("blockchain.transaction.get", "transaction_get", "tx_hash", true));
    items.push(
        declare_binary(
            "blockchain.transaction.get",
            "transaction_get_verbose",
            "tx_hash",
            "verbose",
            true,
        ),
    );
    items.push(
        declare_binary(
            "blockchain.transaction.get_merkle",
            "transaction_get_merkle",
            "tx_hash",
            "height",
            true,
        ),
    );
    items.push(declare_nullary("server.banner", "banner", false));
    items.push(declare_nullary("server.donation_address", "donation_address", false));
    items.push(declare_nullary("server.peers.subscribe", "peers_subscribe", false));
    items.push(declare_unary("blockchain.block.header", "block_header", "height", true));
    items.push(
        declare_binary(
            "blockchain.block.header",
            "block_header_checkpoint",
            "height",
            "cp_height",
            true,
        ),
    );
    items.push(
        declare_binary("blockchain.block.headers", "block_headers", "start_height", "count", true),
    );
    items.push(
        declare_ternary(
            "blockchain.block.headers",
            "block_headers_checkpoint",
            "start_height",
            "count",
            "cp_height",
            true,
        ),
    );
    items.push(declare_unary("blockchain.estimatefee", "estimate_fee", "number", true));
    items.push(declare_nullary("blockchain.headers.subscribe", "headers_subscribe", true));
    items.push(declare_nullary("blockchain.relayfee", "relayfee", true));
    items.push(declare_nullary("mempool.get_fee_histogram", "get_fee_histogram", true));
    items.push(declare_nullary("server.ping", "ping", false));
    items.push(declare_nullary("server.version", "version_anonymous_client", true));
    items.push(declare_unary("server.version", "version_default_protocol", "client_name", true));
    items.push(
        declare_binary("server.version", "version", "client_name", "protocol_version", true),
    );
    assert(syntax::items_view(items@) =~= declarations(protocol_methods()));
    items
}

/// Makes the service of the protocol.
pub fn protocol_service() -> (read: Result<JsonRpcServiceImpl, ServiceSyntaxError>)
    ensures
        read is Ok,
        service::service_read(read) == service::service_from_items(
            declarations(protocol_methods()),
            protocol_methods().len(),
        ),
        dispatch::params_are_counted(read->Ok_0@),
        takes(
            read->Ok_0@,
            "blockchain.scripthash.get_history"@,
            seq!["scripthash"@],
            "scripthash_get_history"@,
        ),
        takes(
            read->Ok_0@,
            "blockchain.scripthash.subscribe"@,
            seq!["scripthash"@],
            "scripthash_subscribe"@,
        ),
        takes(
            read->Ok_0@,
            "blockchain.transaction.broadcast"@,
            seq!["raw_tx"@],
            "transaction_broadcast"@,
        ),
        takes(read->Ok_0@, "blockchain.transaction.get"@, seq!["tx_hash"@], "transaction_get"@),
        takes(
            read->Ok_0@,
            "blockchain.transaction.get"@,
            seq!["tx_hash"@, "verbose"@],
            "transaction_get_verbose"@,
        ),
        takes(
            read->Ok_0@,
            "blockchain.transaction.get_merkle"@,
            seq!["tx_hash"@, "height"@],
            "transaction_get_merkle"@,
        ),
        takes(read->Ok_0@, "server.banner"@, seq![], "banner"@),
        takes(read->Ok_0@, "server.donation_address"@, seq![], "donation_address"@),
        takes(read->Ok_0@, "server.peers.subscribe"@, seq![], "peers_subscribe"@),
        takes(read->Ok_0@, "blockchain.block.header"@, seq!["height"@], "block_header"@),
        takes(
            read->Ok_0@,
            "blockchain.block.header"@,
            seq!["height"@, "cp_height"@],
            "block_header_checkpoint"@,
        ),
        takes(
            read->Ok_0@,
            "blockchain.block.headers"@,
            seq!["start_height"@, "count"@],
            "block_headers"@,
        ),
        takes(
            read->Ok_0@,
            "blockchain.block.headers"@,
            seq!["start_height"@, "count"@, "cp_height"@],
            "block_headers_checkpoint"@,
        ),
        takes(read->Ok_0@, "blockchain.estimatefee"@, seq!["number"@], "estimate_fee"@),
        takes(read->Ok_0@, "blockchain.headers.subscribe"@, seq![], "headers_subscribe"@),
        takes(read->Ok_0@, "blockchain.relayfee"@, seq![], "relayfee"@),
        takes(read->Ok_0@, "mempool.get_fee_histogram"@, seq![], "get_fee_histogram"@),
        takes(read->Ok_0@, "server.ping"@, seq![], "ping"@),
        takes(read->Ok_0@, "server.version"@, seq![], "version_anonymous_client"@),
        takes(read->Ok_0@, "server.version"@, seq!["client_name"@], "version_default_protocol"@),
        takes(
            read->Ok_0@,
            "server.version"@,
            seq!["client_name"@, "protocol_version"@],
            "version"@,
        ),
{
    let mut item_impl = ImplBlock { items: protocol_items() };
    proof {
        let items = declarations(protocol_methods());
        protocol_methods_differ();
        methods_make_a_service(protocol_methods(), protocol_methods().len());
        assert forall|i: int|
            #![trigger items[i]]
            0 <= i < items.len() implies dispatch::plain_arguments(items[i]) by {
            let method = protocol_methods()[i];
            assert forall|k: int|
                #![trigger method.params[k]]
                0 <= k < method.params.len() implies method.params[k] != "self"@ by {
                assert(protocol_methods()[i].params[k] != "self"@);
            }
            declaration_is_read(method, i as nat);
        }
        dispatch::read_params_are_counted(items, items.len());
        each_method_is_taken(protocol_methods(), 0);
        each_method_is_taken(protocol_methods(), 1);
        each_method_is_taken(protocol_methods(), 2);
        each_method_is_taken(protocol_methods(), 3);
        each_method_is_taken(protocol_methods(), 4);
        each_method_is_taken(protocol_methods(), 5);
        each_method_is_taken(protocol_methods(), 6);
        each_method_is_taken(protocol_methods(), 7);
        each_method_is_taken(protocol_methods(), 8);
        each_method_is_taken(protocol_methods(), 9);
        each_method_is_taken(protocol_methods(), 10);
        each_method_is_taken(protocol_methods(), 11);
        each_method_is_taken(protocol_methods(), 12);
        each_method_is_taken(protocol_methods(), 13);
        each_method_is_taken(protocol_methods(), 14);
        each_method_is_taken(protocol_methods(), 15);
        each_method_is_taken(protocol_methods(), 16);
        each_method_is_taken(protocol_methods(), 17);
        each_method_is_taken(protocol_methods(), 18);
        each_method_is_taken(protocol_methods(), 19);
        each_method_is_taken(protocol_methods(), 20);
    }
    JsonRpcServiceImpl::parse_impl(&mut item_impl)
}

} // verus!
