//! How a request finds the method of a service that it is for, and what becomes of the result.

use crate::json_types::json_rpc_params;
use crate::json_types::json_rpc_params::JsonRpcParamsView;
use crate::json_types::{JsonRpcError, JsonRpcParams};
use crate::json_value;
use crate::json_value::{JsonMap, JsonValue, JsonView};
use crate::macros::service;
use crate::macros::service::{
    JsonRpcServiceImpl, JsonRpcServiceImplView, ServiceMethodSignature, ServiceSignature,
};
use crate::macros::syntax;
use crate::macros::syntax::{ArgumentView, ItemView, ParamView};
use crate::macros::table;
use crate::service as outcome;
use crate::service::{HandleMethodError, HandleMethodErrorView};
use crate::text;
use crate::text::join3;
use vstd::prelude::*;

verus! {

/// A call of what the item with the given index declares, with a JSON value for each parameter.
#[derive(Debug, PartialEq)]
pub struct ServiceCall {
    pub item: usize,
    pub arguments: Vec<(String, JsonValue)>,
}

/// What a `ServiceCall` is.
pub struct ServiceCallView {
    pub item: nat,
    pub arguments: Seq<(Seq<char>, JsonView)>,
}

/// What arguments are.
pub open spec fn arguments_view(arguments: Seq<(String, JsonValue)>) -> Seq<(Seq<char>, JsonView)> {
    arguments.map_values(|argument: (String, JsonValue)| (argument.0@, argument.1@))
}

/// The values, each for the parameter at its index.
pub open spec fn bound_by_position(params: Seq<ParamView>, values: Seq<JsonView>) -> Seq<
    (Seq<char>, JsonView),
> {
    Seq::new(params.len(), |i: int| (params[i].name, values[i]))
}

/// The fields, each for the parameter with its name; else the first parameter without a field.
pub open spec fn bound_by_name(
    params: Seq<ParamView>,
    fields: Map<Seq<char>, JsonView>,
) -> Result<Seq<(Seq<char>, JsonView)>, Seq<char>>
    decreases params.len(),
{
    if params.len() == 0 {
        Ok(Seq::empty())
    } else {
        let name = params[0].name;
        if !fields.contains_key(name) {
            Err(name)
        } else {
            match bound_by_name(params.drop_first(), fields.remove(name)) {
                Ok(rest) => Ok(seq![(name, fields[name])] + rest),
                Err(missing) => Err(missing),
            }
        }
    }
}

/// Each entry has as many parameters as its number says.
pub open spec fn params_are_counted(service: JsonRpcServiceImplView) -> bool {
    &&& forall|name: Seq<char>, arity: nat| #[trigger]
        service.methods.contains_key((name, arity)) ==> service.methods[(
            name,
            arity,
        )].signature.params.len() == arity
    &&& forall|name: Seq<char>, arity: nat| #[trigger]
        service.notifications.contains_key((name, arity)) ==> service.notifications[(
            name,
            arity,
        )].params.len() == arity
}

/// The receivers are where they can be, and no argument is named `self`.
pub open spec fn plain_arguments(item: ItemView) -> bool {
    match item {
        ItemView::Method { sig, .. } => {
            &&& forall|i: int|
                #![trigger sig.inputs[i]]
                0 <= i < sig.inputs.len() ==> sig.inputs[i] != (ArgumentView::Typed {
                    ident: Some("self"@),
                })
            &&& forall|i: int|
                #![trigger sig.inputs[i]]
                0 < i < sig.inputs.len() ==> sig.inputs[i] is Typed
        },
        ItemView::Other => true,
    }
}

/// In a service that was read from plain arguments, each entry has as many parameters as its
/// number says.
pub proof fn read_params_are_counted(items: Seq<ItemView>, n: nat)
    requires
        n <= items.len(),
        service::service_from_items(items, n) is Ok,
        forall|i: int| #![trigger items[i]] 0 <= i < items.len() ==> plain_arguments(items[i]),
    ensures
        params_are_counted(service::service_from_items(items, n)->Ok_0),
    decreases n,
{
    if n > 0 {
        read_params_are_counted(items, (n - 1) as nat);
        match items[n - 1] {
            ItemView::Method { attrs, sig } => {
                assert(plain_arguments(items[n - 1]));
                if service::signature_from(sig, (n - 1) as nat) is Ok {
                    service::params_match_arity(sig.inputs);
                }
            },
            ItemView::Other => {},
        }
    }
}

/// What a method call comes to: the call of the method with as many parameters, or what is wrong.
pub open spec fn method_call(
    service: JsonRpcServiceImplView,
    method: Seq<char>,
    params: Option<JsonRpcParamsView>,
) -> Result<ServiceCallView, HandleMethodErrorView> {
    if !table::has_name(service.methods, method) {
        Err(HandleMethodErrorView::MethodNotFound)
    } else {
        match params {
            None => if service.methods.contains_key((method, 0)) {
                Ok(
                    ServiceCallView {
                        item: service.methods[(method, 0)].signature.item,
                        arguments: Seq::empty(),
                    },
                )
            } else {
                Err(
                    HandleMethodErrorView::InvalidParams {
                        message: "missing parameters"@,
                        data: None,
                    },
                )
            },
            Some(JsonRpcParamsView::Array(values)) => if service.methods.contains_key(
                (method, values.len()),
            ) {
                let signature = service.methods[(method, values.len())].signature;
                Ok(
                    ServiceCallView {
                        item: signature.item,
                        arguments: bound_by_position(signature.params, values),
                    },
                )
            } else {
                Err(wrong_number())
            },
            Some(JsonRpcParamsView::Object(fields)) => if service.methods.contains_key(
                (method, fields.len()),
            ) {
                let signature = service.methods[(method, fields.len())].signature;
                match bound_by_name(signature.params, fields) {
                    Ok(arguments) => Ok(ServiceCallView { item: signature.item, arguments }),
                    Err(name) => Err(
                        HandleMethodErrorView::InvalidParams {
                            message: "parameter "@ + name + " missing"@,
                            data: None,
                        },
                    ),
                }
            } else {
                Err(wrong_number())
            },
        }
    }
}

/// What a method call with a number of parameters comes to that the method does not take.
pub open spec fn wrong_number() -> HandleMethodErrorView {
    HandleMethodErrorView::InvalidParams { message: "invalid number of parameters"@, data: None }
}

/// What a notification comes to: the call of what takes it, or nothing.
pub open spec fn notification_call(
    service: JsonRpcServiceImplView,
    method: Seq<char>,
    params: Option<JsonRpcParamsView>,
) -> Option<ServiceCallView> {
    let arity = match params {
        None => 0,
        Some(JsonRpcParamsView::Array(values)) => values.len(),
        Some(JsonRpcParamsView::Object(fields)) => fields.len(),
    };
    if !service.notifications.contains_key((method, arity)) {
        None
    } else {
        let signature = service.notifications[(method, arity)];
        match params {
            None => Some(ServiceCallView { item: signature.item, arguments: Seq::empty() }),
            Some(JsonRpcParamsView::Array(values)) => Some(
                ServiceCallView {
                    item: signature.item,
                    arguments: bound_by_position(signature.params, values),
                },
            ),
            Some(JsonRpcParamsView::Object(fields)) => match bound_by_name(
                signature.params,
                fields,
            ) {
                Ok(arguments) => Some(ServiceCallView { item: signature.item, arguments }),
                Err(_) => None,
            },
        }
    }
}

/// A method that is declared with so many parameters is what is called with so many values.
pub proof fn declared_method_is_called(
    service: JsonRpcServiceImplView,
    method: Seq<char>,
    values: Seq<JsonView>,
)
    requires
        service.methods.contains_key((method, values.len())),
    ensures
        method_call(service, method, Some(JsonRpcParamsView::Array(values))) == Ok::<
            ServiceCallView,
            HandleMethodErrorView,
        >(
            ServiceCallView {
                item: service.methods[(method, values.len())].signature.item,
                arguments: bound_by_position(
                    service.methods[(method, values.len())].signature.params,
                    values,
                ),
            },
        ),
        values.len() == 0 ==> method_call(service, method, None) == Ok::<
            ServiceCallView,
            HandleMethodErrorView,
        >(
            ServiceCallView {
                item: service.methods[(method, 0)].signature.item,
                arguments: Seq::empty(),
            },
        ),
{
    assert(table::has_name(service.methods, method));
}

/// A notification that is declared with so many parameters is what is called with so many values,
/// each value bound to the parameter at its index. Without parameters it is called as with none.
pub proof fn declared_notification_is_called(
    service: JsonRpcServiceImplView,
    method: Seq<char>,
    values: Seq<JsonView>,
)
    requires
        service.notifications.contains_key((method, values.len())),
        service.notifications[(method, values.len())].params.len() == values.len(),
    ensures
        ({
            let signature = service.notifications[(method, values.len())];
            let call = notification_call(service, method, Some(JsonRpcParamsView::Array(values)));
            &&& call is Some
            &&& call->0.item == signature.item
            &&& call->0.arguments.len() == values.len()
            &&& forall|i: int|
                #![trigger call->0.arguments[i]]
                0 <= i < values.len() ==> call->0.arguments[i].0 == signature.params[i].name
                    && call->0.arguments[i].1 == values[i]
            &&& values.len() == 0 ==> notification_call(service, method, None) == call
        }),
{
    let call = notification_call(service, method, Some(JsonRpcParamsView::Array(values)));
    if values.len() == 0 {
        assert(call->0.arguments =~= Seq::empty());
    }
}

/// In a call by position each value is bound to the parameter at its index, and a call without
/// parameters is the same as one with none.
pub proof fn values_are_bound_in_order(
    service: JsonRpcServiceImplView,
    method: Seq<char>,
    values: Seq<JsonView>,
)
    requires
        service.methods.contains_key((method, values.len())),
        service.methods[(method, values.len())].signature.params.len() == values.len(),
    ensures
        ({
            let signature = service.methods[(method, values.len())].signature;
            let call = method_call(service, method, Some(JsonRpcParamsView::Array(values)));
            &&& call is Ok
            &&& call->Ok_0.item == signature.item
            &&& call->Ok_0.arguments.len() == values.len()
            &&& forall|i: int|
                #![trigger call->Ok_0.arguments[i]]
                0 <= i < values.len() ==> call->Ok_0.arguments[i].0 == signature.params[i].name
                    && call->Ok_0.arguments[i].1 == values[i]
            &&& values.len() == 0 ==> method_call(service, method, None) == call
        }),
{
    declared_method_is_called(service, method, values);
    let call = method_call(service, method, Some(JsonRpcParamsView::Array(values)));
    if values.len() == 0 {
        assert(call->Ok_0.arguments =~= Seq::empty());
    }
}

/// How many parameters a request has.
pub open spec fn param_count(params: Option<JsonRpcParamsView>) -> nat {
    match params {
        None => 0,
        Some(JsonRpcParamsView::Array(values)) => values.len(),
        Some(JsonRpcParamsView::Object(fields)) => fields.len(),
    }
}

/// A method call is refused as not found exactly where nothing is declared under its name. Where
/// something is, but not with so many parameters, it is refused for its parameters; by position it
/// is refused for nothing else.
pub proof fn undeclared_methods_are_refused(
    service: JsonRpcServiceImplView,
    method: Seq<char>,
    params: Option<JsonRpcParamsView>,
)
    ensures
        ({
            let call = method_call(service, method, params);
            let named = exists|arity: nat| #[trigger] service.methods.contains_key((method, arity));
            let fits = service.methods.contains_key((method, param_count(params)));
            &&& call == Err::<ServiceCallView, HandleMethodErrorView>(
                HandleMethodErrorView::MethodNotFound,
            ) <==> !named
            &&& named && !fits ==> call is Err && call->Err_0 is InvalidParams
            &&& fits && !(params is Some && params->0 is Object) ==> call is Ok
            &&& call is Ok ==> fits && call->Ok_0.item == service.methods[(
                method,
                param_count(params),
            )].signature.item
        }),
{
    if service.methods.contains_key((method, param_count(params))) {
        assert(table::has_name(service.methods, method));
    }
}

/// What is wrong with the parameters of a call is told: that there are none, that their number is one
/// that the method does not take, or the name of the first parameter that is missing.
pub proof fn wrong_params_are_told(
    service: JsonRpcServiceImplView,
    method: Seq<char>,
    params: Option<JsonRpcParamsView>,
)
    ensures
        ({
            let call = method_call(service, method, params);
            let fits = service.methods.contains_key((method, param_count(params)));
            call matches Err(HandleMethodErrorView::InvalidParams { message, data }) ==> {
                &&& data is None
                &&& !fits ==> message == if params is None {
                    "missing parameters"@
                } else {
                    "invalid number of parameters"@
                }
                &&& fits ==> {
                    let bound = bound_by_name(
                        service.methods[(method, param_count(params))].signature.params,
                        params->0->Object_0,
                    );
                    &&& params is Some
                    &&& params->0 is Object
                    &&& bound is Err
                    &&& text::holds(message, bound->Err_0)
                }
            }
        }),
{
    if params is Some && params->0 is Object {
        let fields = params->0->Object_0;
        let bound = bound_by_name(
            service.methods[(method, fields.len())].signature.params,
            fields,
        );
        if bound is Err {
            text::what_is_put_between_stands_there("parameter "@, bound->Err_0, " missing"@);
        }
    }
}

/// A notification that is not declared with so many parameters is dropped; by position one that is
/// declared never is.
pub proof fn undeclared_notifications_are_dropped(
    service: JsonRpcServiceImplView,
    method: Seq<char>,
    params: Option<JsonRpcParamsView>,
)
    ensures
        ({
            let call = notification_call(service, method, params);
            let fits = service.notifications.contains_key((method, param_count(params)));
            &&& call is Some ==> fits && call->0.item == service.notifications[(
                method,
                param_count(params),
            )].item
            &&& fits && !(params is Some && params->0 is Object) ==> call is Some
        }),
{
}

/// By name, each parameter gets the field with its name, in the order of the parameters; where
/// fields are missing, the first parameter without one is told.
pub proof fn fields_are_bound_by_name(params: Seq<ParamView>, fields: Map<Seq<char>, JsonView>)
    requires
        names_differ(params),
    ensures
        bound_by_name(params, fields) is Ok <==> forall|i: int|
            #![trigger params[i]]
            0 <= i < params.len() ==> fields.contains_key(params[i].name),
        bound_by_name(params, fields) is Ok ==> {
            let arguments = bound_by_name(params, fields)->Ok_0;
            &&& arguments.len() == params.len()
            &&& forall|i: int|
                #![trigger arguments[i]]
                0 <= i < params.len() ==> arguments[i].0 == params[i].name && arguments[i].1
                    == fields[params[i].name]
        },
        bound_by_name(params, fields) is Err ==> exists|n: int|
            #![trigger params[n]]
            {
                &&& 0 <= n < params.len()
                &&& params[n].name == bound_by_name(params, fields)->Err_0
                &&& !fields.contains_key(params[n].name)
                &&& forall|i: int|
                    #![trigger params[i]]
                    0 <= i < n ==> fields.contains_key(params[i].name)
            },
    decreases params.len(),
{
    if params.len() > 0 {
        let name = params[0].name;
        let rest = params.drop_first();
        let left = fields.remove(name);
        assert forall|i: int, j: int|
            #![trigger rest[i], rest[j]]
            0 <= i < j < rest.len() implies rest[i].name != rest[j].name by {
            assert(rest[i] == params[i + 1]);
            assert(rest[j] == params[j + 1]);
        }
        assert forall|i: int| #![trigger rest[i]] 0 <= i < rest.len() implies left.contains_key(
            rest[i].name,
        ) == fields.contains_key(params[i + 1].name) && (fields.contains_key(params[i + 1].name)
            ==> left[rest[i].name] == fields[params[i + 1].name]) by {
            assert(rest[i] == params[i + 1]);
            assert(params[0].name != params[i + 1].name);
        }
        fields_are_bound_by_name(rest, left);
        if fields.contains_key(name) {
            if bound_by_name(rest, left) is Ok {
                let arguments = bound_by_name(params, fields)->Ok_0;
                let behind = bound_by_name(rest, left)->Ok_0;
                assert forall|i: int|
                    #![trigger params[i]]
                    0 <= i < params.len() implies fields.contains_key(params[i].name) by {
                    if i > 0 {
                        assert(rest[i - 1] == params[i]);
                    }
                }
                assert forall|i: int|
                    #![trigger arguments[i]]
                    0 <= i < params.len() implies arguments[i].0 == params[i].name
                    && arguments[i].1 == fields[params[i].name] by {
                    if i > 0 {
                        assert(arguments[i] == behind[i - 1]);
                        assert(rest[i - 1] == params[i]);
                    }
                }
            } else {
                let missing = bound_by_name(rest, left)->Err_0;
                let m = choose|m: int|
                    #![trigger rest[m]]
                    {
                        &&& 0 <= m < rest.len()
                        &&& rest[m].name == missing
                        &&& !left.contains_key(rest[m].name)
                        &&& forall|i: int|
                            #![trigger rest[i]]
                            0 <= i < m ==> left.contains_key(rest[i].name)
                    };
                let n = m + 1;
                assert(rest[m] == params[n]);
                assert forall|i: int|
                    #![trigger params[i]]
                    0 <= i < n implies fields.contains_key(params[i].name) by {
                    if i > 0 {
                        assert(rest[i - 1] == params[i]);
                    }
                }
            }
        } else {
            assert(!fields.contains_key(params[0].name));
        }
    }
}

/// A method call by name comes to the call of the method with as many parameters, each bound to the
/// field with its name, exactly where there is a field for each; a notification does likewise.
pub proof fn calls_by_name_are_bound(
    service: JsonRpcServiceImplView,
    method: Seq<char>,
    fields: Map<Seq<char>, JsonView>,
)
    ensures
        service.methods.contains_key((method, fields.len())) ==> {
            let signature = service.methods[(method, fields.len())].signature;
            let call = method_call(service, method, Some(JsonRpcParamsView::Object(fields)));
            names_differ(signature.params) ==> {
                &&& call is Ok <==> forall|i: int|
                    #![trigger signature.params[i]]
                    0 <= i < signature.params.len() ==> fields.contains_key(
                        signature.params[i].name,
                    )
                &&& call is Err ==> call->Err_0 is InvalidParams
                &&& call is Ok ==> call->Ok_0.arguments.len() == signature.params.len()
                &&& call is Ok ==> forall|i: int|
                    #![trigger call->Ok_0.arguments[i]]
                    0 <= i < signature.params.len() ==> call->Ok_0.arguments[i].0
                        == signature.params[i].name && call->Ok_0.arguments[i].1
                        == fields[signature.params[i].name]
            }
        },
        service.notifications.contains_key((method, fields.len())) ==> {
            let signature = service.notifications[(method, fields.len())];
            let call = notification_call(service, method, Some(JsonRpcParamsView::Object(fields)));
            names_differ(signature.params) ==> {
                &&& call is Some <==> forall|i: int|
                    #![trigger signature.params[i]]
                    0 <= i < signature.params.len() ==> fields.contains_key(
                        signature.params[i].name,
                    )
                &&& call is Some ==> call->0.arguments.len() == signature.params.len()
                &&& call is Some ==> forall|i: int|
                    #![trigger call->0.arguments[i]]
                    0 <= i < signature.params.len() ==> call->0.arguments[i].0
                        == signature.params[i].name && call->0.arguments[i].1
                        == fields[signature.params[i].name]
            }
        },
{
    if service.methods.contains_key((method, fields.len())) {
        assert(table::has_name(service.methods, method));
        let params = service.methods[(method, fields.len())].signature.params;
        if names_differ(params) {
            fields_are_bound_by_name(params, fields);
        }
    }
    if service.notifications.contains_key((method, fields.len())) {
        let params = service.notifications[(method, fields.len())].params;
        if names_differ(params) {
            fields_are_bound_by_name(params, fields);
        }
    }
}

/// No two parameters have the same name.
pub open spec fn names_differ(params: Seq<ParamView>) -> bool {
    forall|i: int, j: int|
        #![trigger params[i], params[j]]
        0 <= i < j < params.len() ==> params[i].name != params[j].name
}

/// The fields are the parameters: there are no others, and each has the value at its index.
pub open spec fn same_arguments(
    params: Seq<ParamView>,
    values: Seq<JsonView>,
    fields: Map<Seq<char>, JsonView>,
) -> bool {
    &&& params.len() == values.len()
    &&& forall|i: int|
        #![trigger params[i]]
        0 <= i < params.len() ==> fields.contains_key(params[i].name) && fields[params[i].name]
            == values[i]
}

proof fn named_values_are_bound(
    params: Seq<ParamView>,
    values: Seq<JsonView>,
    fields: Map<Seq<char>, JsonView>,
)
    requires
        names_differ(params),
        same_arguments(params, values, fields),
    ensures
        bound_by_name(params, fields) == Ok::<Seq<(Seq<char>, JsonView)>, Seq<char>>(
            bound_by_position(params, values),
        ),
    decreases params.len(),
{
    if params.len() > 0 {
        let name = params[0].name;
        let rest = params.drop_first();
        assert(fields.contains_key(name));
        assert forall|i: int, j: int|
            #![trigger rest[i], rest[j]]
            0 <= i < j < rest.len() implies rest[i].name != rest[j].name by {
            assert(rest[i] == params[i + 1]);
            assert(rest[j] == params[j + 1]);
        }
        assert forall|i: int|
            #![trigger rest[i]]
            0 <= i < rest.len() implies fields.remove(name).contains_key(rest[i].name)
            && fields.remove(name)[rest[i].name] == values.drop_first()[i] by {
            assert(rest[i] == params[i + 1]);
            assert(params[0].name != params[i + 1].name);
        }
        named_values_are_bound(rest, values.drop_first(), fields.remove(name));
        assert(seq![(name, fields[name])] + bound_by_position(rest, values.drop_first())
            =~= bound_by_position(params, values));
    } else {
        assert(bound_by_position(params, values) =~= Seq::empty());
    }
}

/// Parameters by name call a method as the same parameters by position do.
pub proof fn by_name_is_by_position(
    service: JsonRpcServiceImplView,
    method: Seq<char>,
    values: Seq<JsonView>,
    fields: Map<Seq<char>, JsonView>,
)
    requires
        fields.len() == values.len(),
        service.methods.contains_key((method, values.len())) ==> {
            let params = service.methods[(method, values.len())].signature.params;
            names_differ(params) && same_arguments(params, values, fields)
        },
    ensures
        method_call(service, method, Some(JsonRpcParamsView::Object(fields))) == method_call(
            service,
            method,
            Some(JsonRpcParamsView::Array(values)),
        ),
{
    if service.methods.contains_key((method, values.len())) {
        let params = service.methods[(method, values.len())].signature.params;
        named_values_are_bound(params, values, fields);
    }
}

/// Parameters by name notify as the same parameters by position do.
pub proof fn notified_by_name_is_by_position(
    service: JsonRpcServiceImplView,
    method: Seq<char>,
    values: Seq<JsonView>,
    fields: Map<Seq<char>, JsonView>,
)
    requires
        fields.len() == values.len(),
        service.notifications.contains_key((method, values.len())) ==> {
            let params = service.notifications[(method, values.len())].params;
            names_differ(params) && same_arguments(params, values, fields)
        },
    ensures
        notification_call(service, method, Some(JsonRpcParamsView::Object(fields)))
            == notification_call(service, method, Some(JsonRpcParamsView::Array(values))),
{
    if service.notifications.contains_key((method, values.len())) {
        let params = service.notifications[(method, values.len())].params;
        named_values_are_bound(params, values, fields);
    }
}

impl ServiceCall {
    /// What the call is.
    pub open spec fn view(&self) -> ServiceCallView {
        ServiceCallView { item: self.item as nat, arguments: arguments_view(self.arguments@) }
    }
}

/// What resolving a method call gave.
pub open spec fn call_result_view(call: Result<ServiceCall, HandleMethodError>) -> Result<
    ServiceCallView,
    HandleMethodErrorView,
> {
    match call {
        Ok(call) => Ok(call@),
        Err(error) => Err(error@),
    }
}

/// What resolving a notification gave.
pub open spec fn call_option_view(call: Option<ServiceCall>) -> Option<ServiceCallView> {
    match call {
        Some(call) => Some(call@),
        None => None,
    }
}

impl ServiceSignature {
    /// Makes the call without parameters.
    pub fn call_syn(&self) -> (call: ServiceCall)
        requires
            self@.params.len() == 0,
        ensures
            call@ == (ServiceCallView { item: self@.item, arguments: Seq::empty() }),
    {
        let arguments: Vec<(String, JsonValue)> = Vec::new();
        assert(arguments_view(arguments@) =~= Seq::empty());
        ServiceCall { item: self.item, arguments }
    }

    /// Makes the call with parameters by position.
    pub fn call_with_array(&self, array_values: Vec<JsonValue>) -> (call: ServiceCall)
        requires
            array_values@.len() == self@.params.len(),
        ensures
            call@ == (ServiceCallView {
                item: self@.item,
                arguments: bound_by_position(
                    self@.params,
                    json_value::values_view(array_values@),
                ),
            }),
    {
        let mut arguments: Vec<(String, JsonValue)> = Vec::with_capacity(self.params.len());
        for value in rest: array_values
            invariant
                rest.seq() == array_values@,
                array_values@.len() == self.params@.len(),
                arguments@.len() == rest.index(),
                forall|i: int|
                    #![trigger arguments@[i]]
                    0 <= i < arguments@.len() ==> arguments@[i].0@ == self.params@[i].name@
                        && arguments@[i].1@ == array_values@[i]@,
        {
            assert(value == array_values@[rest.index() as int]);
            let index: usize = arguments.len();
            arguments.push((self.params[index].name.clone(), value));
        }
        assert(arguments_view(arguments@) =~= bound_by_position(
            self@.params,
            json_value::values_view(array_values@),
        ));
        ServiceCall { item: self.item, arguments }
    }

    /// Makes the call with parameters by name; else gives the first that is missing.
    pub fn call_with_object(&self, object_values: JsonMap) -> (call: Result<ServiceCall, String>)
        ensures
            match call {
                Ok(call) => {
                    &&& call@.item == self@.item
                    &&& bound_by_name(self@.params, object_values@) == Ok::<
                        Seq<(Seq<char>, JsonView)>,
                        Seq<char>,
                    >(call@.arguments)
                },
                Err(name) => bound_by_name(self@.params, object_values@) == Err::<
                    Seq<(Seq<char>, JsonView)>,
                    Seq<char>,
                >(name@),
            },
    {
        let ghost params = self@.params;
        let mut fields = object_values;
        let mut arguments: Vec<(String, JsonValue)> = Vec::with_capacity(self.params.len());
        proof {
            assert(params.skip(0) =~= params);
            assert(arguments_view(arguments@) =~= Seq::empty());
        }
        for index in 0..self.params.len()
            invariant
                params == syntax::params_view(self.params@),
                bound_by_name(params, object_values@) == match bound_by_name(
                    params.skip(index as int),
                    fields@,
                ) {
                    Ok(rest) => Ok::<Seq<(Seq<char>, JsonView)>, Seq<char>>(
                        arguments_view(arguments@) + rest,
                    ),
                    Err(name) => Err(name),
                },
        {
            let ghost before = arguments@;
            let ghost left = params.skip(index as int);
            let ghost fields_left = fields@;
            let name = &self.params[index].name;
            assert(left[0].name == name@);
            assert(left.drop_first() =~= params.skip(index + 1));
            match fields.remove(name.as_str()) {
                Some(value) => {
                    arguments.push((name.clone(), value));
                    proof {
                        assert(arguments_view(arguments@) =~= arguments_view(before).push(
                            (name@, value@),
                        ));
                        match bound_by_name(params.skip(index + 1), fields@) {
                            Ok(rest) => {
                                assert(arguments_view(before) + (seq![(name@, value@)] + rest)
                                    =~= arguments_view(arguments@) + rest);
                            },
                            Err(_) => {},
                        }
                    }
                },
                None => {
                    return Err(name.clone());
                },
            }
        }
        proof {
            assert(params.skip(params.len() as int).len() == 0);
            assert(arguments_view(arguments@) + Seq::<(Seq<char>, JsonView)>::empty()
                =~= arguments_view(arguments@));
        }
        Ok(ServiceCall { item: self.item, arguments })
    }
}

impl ServiceMethodSignature {
    /// Makes the call without parameters.
    pub fn call_syn(&self) -> (call: ServiceCall)
        requires
            self@.signature.params.len() == 0,
        ensures
            call@ == (ServiceCallView { item: self@.signature.item, arguments: Seq::empty() }),
    {
        self.signature.call_syn()
    }

    /// Makes the call with parameters by position.
    pub fn call_with_array(&self, array_values: Vec<JsonValue>) -> (call: ServiceCall)
        requires
            array_values@.len() == self@.signature.params.len(),
        ensures
            call@ == (ServiceCallView {
                item: self@.signature.item,
                arguments: bound_by_position(
                    self@.signature.params,
                    json_value::values_view(array_values@),
                ),
            }),
    {
        self.signature.call_with_array(array_values)
    }

    /// Makes the call with parameters by name; the error tells the caller the first that is
    /// missing.
    pub fn call_with_object(&self, object_values: JsonMap) -> (call: Result<
        ServiceCall,
        HandleMethodError,
    >)
        ensures
            call_result_view(call) == match bound_by_name(
                self@.signature.params,
                object_values@,
            ) {
                Ok(arguments) => Ok::<ServiceCallView, HandleMethodErrorView>(
                    ServiceCallView { item: self@.signature.item, arguments },
                ),
                Err(name) => Err(
                    HandleMethodErrorView::InvalidParams {
                        message: "parameter "@ + name + " missing"@,
                        data: None,
                    },
                ),
            },
    {
        match self.signature.call_with_object(object_values) {
            Ok(call) => Ok(call),
            Err(name) => Err(
                HandleMethodError::InvalidParams {
                    message: join3("parameter ", name.as_str(), " missing"),
                    data: None,
                },
            ),
        }
    }

    /// Makes the outcome of a method call out of what the method returned: `Ok` with the JSON
    /// value that it was written as, or with the words of the error of writing it; else `Err`
    /// with its own error.
    pub fn serialize_result(result: Result<Result<JsonValue, String>, JsonRpcError>) -> (outcome:
        Result<JsonValue, HandleMethodError>)
        ensures
            outcome::outcome_view(outcome) == match result {
                Ok(Ok(value)) => Ok::<JsonView, HandleMethodErrorView>(value@),
                Ok(Err(words)) => Err(
                    HandleMethodErrorView::InternalError {
                        message: "json serialization of return value failed"@,
                        data: Some(JsonView::String(words@)),
                    },
                ),
                Err(error) => Err(HandleMethodErrorView::ApplicationError(error@)),
            },
    {
        match result {
            Ok(Ok(value)) => Ok(value),
            Ok(Err(words)) => Err(
                HandleMethodError::InternalError {
                    message: "json serialization of return value failed".to_owned(),
                    data: Some(JsonValue::String(words)),
                },
            ),
            Err(error) => Err(HandleMethodError::ApplicationError(error)),
        }
    }
}

/// What the caller of a method is told about a parameter that could not be read.
pub fn malformed_parameter(name: &str, words: String) -> (error: HandleMethodError)
    ensures
        error@ == (HandleMethodErrorView::InvalidParams {
            message: "parameter "@ + name@ + " malformed"@,
            data: Some(JsonView::String(words@)),
        }),
{
    HandleMethodError::InvalidParams {
        message: join3("parameter ", name, " malformed"),
        data: Some(JsonValue::String(words)),
    }
}

impl JsonRpcServiceImpl {
    /// Finds what a method call comes to.
    pub fn resolve_method(&self, method: &str, params: Option<JsonRpcParams>) -> (call: Result<
        ServiceCall,
        HandleMethodError,
    >)
        requires
            params_are_counted(self@),
        ensures
            call_result_view(call) == method_call(
                self@,
                method@,
                json_rpc_params::params_option_view(params),
            ),
    {
        if !self.methods.contains_name(method) {
            return Err(HandleMethodError::MethodNotFound);
        }
        match params {
            None => match self.methods.get(method, 0) {
                Some(signature) => Ok(signature.call_syn()),
                None => Err(
                    HandleMethodError::InvalidParams {
                        message: "missing parameters".to_owned(),
                        data: None,
                    },
                ),
            },
            Some(JsonRpcParams::Array(values)) => match self.methods.get(method, values.len()) {
                Some(signature) => Ok(signature.call_with_array(values)),
                None => Err(
                    HandleMethodError::InvalidParams {
                        message: "invalid number of parameters".to_owned(),
                        data: None,
                    },
                ),
            },
            Some(JsonRpcParams::Object(fields)) => match self.methods.get(method, fields.len()) {
                Some(signature) => signature.call_with_object(fields),
                None => Err(
                    HandleMethodError::InvalidParams {
                        message: "invalid number of parameters".to_owned(),
                        data: None,
                    },
                ),
            },
        }
    }

    /// Finds what a notification comes to.
    pub fn resolve_notification(&self, method: &str, params: Option<JsonRpcParams>) -> (call:
        Option<ServiceCall>)
        requires
            params_are_counted(self@),
        ensures
            call_option_view(call) == notification_call(
                self@,
                method@,
                json_rpc_params::params_option_view(params),
            ),
    {
        match params {
            None => match self.notifications.get(method, 0) {
                Some(signature) => Some(signature.call_syn()),
                None => None,
            },
            Some(JsonRpcParams::Array(values)) => match self.notifications.get(
                method,
                values.len(),
            ) {
                Some(signature) => Some(signature.call_with_array(values)),
                None => None,
            },
            Some(JsonRpcParams::Object(fields)) => match self.notifications.get(
                method,
                fields.len(),
            ) {
                Some(signature) => match signature.call_with_object(fields) {
                    Ok(call) => Some(call),
                    Err(_) => None,
                },
                None => None,
            },
        }
    }
}

} // verus!
