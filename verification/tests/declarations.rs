use electrs_json_rpc::json_codec::read_json;
use electrs_json_rpc::json_types::{JsonRpcError, JsonRpcErrorCode, JsonRpcParams};
use electrs_json_rpc::json_value::JsonValue;
use electrs_json_rpc::macros::client::{
    ClientSyntaxError, JsonRpcClientImpl, JsonRpcClientImplSyntax,
};
use electrs_json_rpc::macros::dispatch::malformed_parameter;
use electrs_json_rpc::macros::rpc_impl::JsonRpcImpl;
use electrs_json_rpc::macros::service::{
    ImplBlock, JsonRpcServiceImpl, ServiceMethodSignature, ServiceSyntaxError,
};
use electrs_json_rpc::macros::source::{plain_impl_items, plain_trait_items};
use electrs_json_rpc::macros::syntax::{
    find_string, Argument, AttributeMeta, FnSignature, Item, MethodAttribute, Token,
};
use electrs_json_rpc::macros::table::Table;
use electrs_json_rpc::service::HandleMethodError;

fn attribute(path: &str, name: &str) -> MethodAttribute {
    MethodAttribute {
        path: Some(path.to_owned()),
        meta: AttributeMeta::NameString(name.to_owned()),
    }
}

fn shared() -> Argument {
    Argument::Receiver { reference: true, mutability: false }
}

fn argument(name: &str) -> Argument {
    Argument::Typed { ident: Some(name.to_owned()) }
}

fn item(attrs: Vec<MethodAttribute>, ident: &str, inputs: Vec<Argument>) -> Item {
    Item::Method {
        attrs,
        sig: FnSignature { ident: ident.to_owned(), asyncness: true, inputs, output: true },
    }
}

fn service() -> JsonRpcServiceImpl {
    let doc = MethodAttribute { path: Some("doc".to_owned()), meta: AttributeMeta::Other };
    let mut item_impl = ImplBlock {
        items: vec![
            Item::Other,
            item(vec![doc, attribute("method", "add")], "add", vec![
                shared(),
                argument("a"),
                argument("b"),
            ]),
            item(vec![attribute("method", "add")], "one", vec![argument("a")]),
            item(vec![attribute("method", "now")], "now", vec![shared()]),
            item(vec![attribute("notification", "log")], "log", vec![argument("line")]),
            item(Vec::new(), "helper", vec![shared()]),
        ],
    };
    let service = JsonRpcServiceImpl::parse_impl(&mut item_impl).unwrap();
    match &item_impl.items[1] {
        Item::Method { attrs, .. } => {
            assert_eq!(attrs.len(), 1);
            assert_eq!(attrs[0].path, Some("doc".to_owned()));
        },
        Item::Other => panic!("no method"),
    }
    service
}

fn array(text: &str) -> Option<JsonRpcParams> {
    Some(JsonRpcParams::try_from(read_json(text).unwrap()).unwrap())
}

fn invalid(message: &str) -> HandleMethodError {
    HandleMethodError::InvalidParams { message: message.to_owned(), data: None }
}

#[test]
fn services_are_read() {
    let service = service();
    assert_eq!(service.methods.len(), 3);
    assert_eq!(service.notifications.len(), 1);
    let add = service.methods.get("add", 2).unwrap();
    assert!(!add.signature.is_static && add.signature.is_async && add.return_type);
    assert_eq!(add.signature.method_impl_name, "add");
    assert_eq!(add.signature.params[1].position, 2);
    assert_eq!(add.signature.param_names(), vec!["a", "b"]);
    let one = service.methods.get("add", 1).unwrap();
    assert!(one.signature.is_static);
    assert!(service.methods.get("add", 0).is_none());
    assert_eq!(service.notifications.entry(0).name, "log");
}

#[test]
fn method_calls_are_resolved() {
    let service = service();
    let call = service.resolve_method("add", array("[1,2]")).unwrap();
    assert_eq!(call.item, 1);
    assert_eq!(
        call.arguments,
        vec![
            ("a".to_owned(), JsonValue::from_i64(1)),
            ("b".to_owned(), JsonValue::from_i64(2)),
        ]
    );
    assert_eq!(service.resolve_method("add", array("{\"b\":2,\"a\":1}")).unwrap(), call);
    assert_eq!(service.resolve_method("now", None).unwrap().item, 3);
    assert_eq!(service.resolve_method("now", array("[]")).unwrap().arguments, Vec::new());
    assert_eq!(
        service.resolve_method("sub", None).unwrap_err(),
        HandleMethodError::MethodNotFound
    );
    assert_eq!(
        service.resolve_method("log", array("[1]")).unwrap_err(),
        HandleMethodError::MethodNotFound
    );
    assert_eq!(service.resolve_method("add", None).unwrap_err(), invalid("missing parameters"));
    assert_eq!(
        service.resolve_method("add", array("[1,2,3]")).unwrap_err(),
        invalid("invalid number of parameters")
    );
    assert_eq!(
        service.resolve_method("add", array("{}")).unwrap_err(),
        invalid("invalid number of parameters")
    );
    assert_eq!(
        service.resolve_method("add", array("{\"a\":1,\"c\":2}")).unwrap_err(),
        invalid("parameter b missing")
    );
}

#[test]
fn notifications_are_resolved_or_dropped() {
    let service = service();
    let call = service.resolve_notification("log", array("[\"x\"]")).unwrap();
    assert_eq!(call.item, 4);
    assert_eq!(call.arguments, vec![("line".to_owned(), JsonValue::from_text("x"))]);
    assert_eq!(service.resolve_notification("log", array("{\"line\":\"x\"}")), Some(call));
    assert_eq!(service.resolve_notification("log", None), None);
    assert_eq!(service.resolve_notification("log", array("{\"other\":\"x\"}")), None);
    assert_eq!(service.resolve_notification("add", array("[1,2]")), None);
}

#[test]
fn results_are_passed_on() {
    assert_eq!(
        ServiceMethodSignature::serialize_result(Ok(Ok(JsonValue::Null))),
        Ok(JsonValue::Null)
    );
    assert_eq!(
        ServiceMethodSignature::serialize_result(Ok(Err("key must be a string".to_owned()))),
        Err(HandleMethodError::InternalError {
            message: "json serialization of return value failed".to_owned(),
            data: Some(JsonValue::from_text("key must be a string")),
        })
    );
    let error = JsonRpcError {
        code: JsonRpcErrorCode::new_unchecked(1),
        message: "m".to_owned(),
        data: None,
    };
    assert_eq!(
        ServiceMethodSignature::serialize_result(Err(error.clone())),
        Err(HandleMethodError::ApplicationError(error))
    );
    assert_eq!(
        malformed_parameter("a", "expected u8".to_owned()),
        HandleMethodError::InvalidParams {
            message: "parameter a malformed".to_owned(),
            data: Some(JsonValue::from_text("expected u8")),
        }
    );
}

#[test]
fn wrong_services_are_refused() {
    let read = |items: Vec<Item>| {
        let mut item_impl = ImplBlock { items };
        JsonRpcServiceImpl::parse_impl(&mut item_impl).unwrap_err()
    };
    let meta = |path: &str, meta: AttributeMeta| {
        vec![item(vec![MethodAttribute { path: Some(path.to_owned()), meta }], "f", Vec::new())]
    };
    let error = read(meta("method", AttributeMeta::NameOther));
    assert_eq!(error, ServiceSyntaxError::MethodNameNotString { item: 0 });
    assert_eq!(error.message(), "method name must be a string");
    assert_eq!(error.help(), None);
    let error = read(meta("notification", AttributeMeta::NameOther));
    assert_eq!(error.message(), "notification name must be a string");
    let error = read(meta("method", AttributeMeta::Other));
    assert_eq!(error.message(), "Invalid use of attribute");
    assert_eq!(error.help(), Some("Syntax is #[method = \"method_name\"]".to_owned()));
    let error = read(meta("notification", AttributeMeta::Other));
    assert_eq!(error.message(), "Invalid use of attribute");
    assert_eq!(
        error.help(),
        Some("Syntax is #[notification = \"notification_name\"]".to_owned())
    );
    let marked = |inputs: Vec<Argument>| vec![item(vec![attribute("method", "m")], "f", inputs)];
    let error = read(marked(vec![Argument::Receiver { reference: false, mutability: false }]));
    assert_eq!(error.message(), "self must be taken by reference");
    let error = read(marked(vec![Argument::Receiver { reference: true, mutability: true }]));
    assert_eq!(error, ServiceSyntaxError::MutableSelf { item: 0, arg: 0 });
    assert_eq!(error.message(), "self reference must be immutable");
    let error = read(marked(vec![argument("a"), Argument::Typed { ident: None }]));
    assert_eq!(error, ServiceSyntaxError::PatternArgument { item: 0, arg: 1 });
    assert_eq!(error.message(), "cannot match on method arguments");
    let twice = |path: &str| {
        vec![
            item(vec![attribute(path, "m")], "f", vec![shared(), argument("a")]),
            item(vec![attribute(path, "m")], "g", vec![argument("b")]),
        ]
    };
    let error = read(twice("method"));
    assert_eq!(
        error,
        ServiceSyntaxError::MultipleMethods {
            item: 1,
            name: "m".to_owned(),
            arity: 1,
            previous: 0,
        }
    );
    assert_eq!(error.message(), "multiple overrides of method m with arity 1");
    let error = read(twice("notification"));
    assert_eq!(error.message(), "multiple overrides of notification m with arity 1");
}

#[test]
fn clients_are_read() {
    let syntax = JsonRpcClientImplSyntax {
        ident: "TestClient".to_owned(),
        items: vec![
            item(vec![attribute("method", "delay")], "wait", vec![
                shared(),
                argument("millis"),
                argument("reply"),
            ]),
            item(vec![attribute("notification", "log")], "log", vec![shared()]),
        ],
    };
    let client = JsonRpcClientImpl::parse_client_syntax(syntax).unwrap();
    assert_eq!(client.name, "TestClient");
    let wait = client.methods.get("wait", 0).unwrap();
    assert_eq!(wait.name, "delay");
    assert_eq!(wait.receiver, 0);
    assert_eq!(wait.param_sigs(), vec![("millis".to_owned(), 1), ("reply".to_owned(), 2)]);
    assert!(client.notifications.get("log", 0).is_some());
    assert!(client.notifications.get("wait", 0).is_none());
}

#[test]
fn wrong_clients_are_refused() {
    let read = |items: Vec<Item>| {
        let syntax = JsonRpcClientImplSyntax { ident: "C".to_owned(), items };
        JsonRpcClientImpl::parse_client_syntax(syntax).unwrap_err()
    };
    let error = read(vec![Item::Other]);
    assert_eq!(error, ClientSyntaxError::NotMethod { item: 0 });
    assert_eq!(error.message(), "only methods are allowed in json_rpc_client! blocks");
    let error = read(vec![item(Vec::new(), "f", vec![shared()])]);
    assert_eq!(error.message(), "missing #[notification] attribute");
    let meta = |meta: AttributeMeta| {
        let attr = MethodAttribute { path: Some("method".to_owned()), meta };
        vec![item(vec![attr], "f", vec![shared()])]
    };
    assert_eq!(
        read(meta(AttributeMeta::NameOther)).message(),
        "notification name must be a string"
    );
    let error = read(meta(AttributeMeta::Other));
    assert_eq!(error.message(), "Invalid use of attribute");
    assert_eq!(error.help(), Some("Syntax is #[notification = \"method_name\"]".to_owned()));
    let marked = |inputs: Vec<Argument>| vec![item(vec![attribute("method", "m")], "f", inputs)];
    assert_eq!(read(marked(Vec::new())).message(), "expected a self parameter");
    let error = read(marked(vec![shared(), Argument::Typed { ident: None }]));
    assert_eq!(error.message(), "cannot match on method arguments");
    let error = read(vec![
        item(vec![attribute("method", "a")], "f", vec![shared()]),
        item(vec![attribute("notification", "b")], "f", vec![shared()]),
        item(vec![attribute("method", "c")], "f", vec![shared()]),
    ]);
    assert_eq!(
        error,
        ClientSyntaxError::MultipleMethods { item: 2, name: "c".to_owned(), previous: 0 }
    );
    assert_eq!(error.message(), "multiple methods named c");
}

#[test]
fn every_attribute_counts_in_the_plain_reading() {
    let items = vec![
        Item::Other,
        item(
            vec![attribute("method", "a"), attribute("notification", "b")],
            "f",
            vec![shared(), argument("x")],
        ),
    ];
    let block = JsonRpcImpl::parse_impl(&items);
    assert_eq!(block.methods.len(), 1);
    assert_eq!(block.methods[0].signature.name, "a");
    assert!(block.methods[0].return_type);
    assert_eq!(block.notifications[0].name, "b");
    assert_eq!(block.notifications[0].params[0].name, "x");
}

#[test]
fn services_are_read_from_source() {
    let text = "impl Service {
        const LIMIT: u8 = 1;
        #[doc = \"adds\"]
        #[method = \"add\"]
        async fn add(&self, a: u8, b: u8) -> Result<u8, Error> { Ok(a + b) }
        #[notification = \"log\"]
        fn log(line: String) {}
        fn helper(&self) {}
    }";
    let mut block: syn::ItemImpl = syn::parse_str(text).unwrap();
    let items = plain_impl_items(&block);
    assert_eq!(items.len(), 4);
    assert_eq!(items[0], Item::Other);
    let service = JsonRpcServiceImpl::parse_item_impl(&mut block).unwrap();
    let add = service.methods.get("add", 2).unwrap();
    assert_eq!(add.signature.item, 1);
    assert!(add.signature.is_async && !add.signature.is_static && add.return_type);
    assert_eq!(add.signature.param_names(), vec!["a", "b"]);
    let log = service.notifications.get("log", 1).unwrap();
    assert!(log.is_static && !log.is_async);
    let attributes = |index: usize| match &block.items[index] {
        syn::ImplItem::Method(method) => method.attrs.len(),
        _ => panic!("no method"),
    };
    assert_eq!((attributes(1), attributes(2), attributes(3)), (1, 0, 0));
}

#[test]
fn wrong_source_is_left_alone() {
    let read = |text: &str| {
        let mut block: syn::ItemImpl = syn::parse_str(text).unwrap();
        let before = block.clone();
        let error = JsonRpcServiceImpl::parse_item_impl(&mut block).unwrap_err();
        assert_eq!(block, before);
        error
    };
    let error = read("impl S { #[method = \"a\"] fn f() {} #[method = 7] fn g() {} }");
    assert_eq!(error, ServiceSyntaxError::MethodNameNotString { item: 1 });
    let error = read("impl S { #[method] fn f() {} }");
    assert_eq!(error, ServiceSyntaxError::InvalidMethodAttribute { item: 0 });
    let error = read("impl S { #[method(name)] fn f() {} }");
    assert_eq!(error, ServiceSyntaxError::InvalidMethodAttribute { item: 0 });
    let error = read("impl S { #[method = name] fn f() {} }");
    assert_eq!(error, ServiceSyntaxError::MethodNameNotString { item: 0 });
    let error = read("impl S { #[method = c\"a\"] fn f() {} }");
    assert_eq!(error, ServiceSyntaxError::MethodNameNotString { item: 0 });
    let error = read("impl S { #[method = \"a\" \"b\"] fn f() {} }");
    assert_eq!(error, ServiceSyntaxError::MethodNameNotString { item: 0 });
    let error = read("impl S { #[method(c\"a\")] fn f() {} }");
    assert_eq!(error, ServiceSyntaxError::InvalidMethodAttribute { item: 0 });
    let error = read("impl S { #[notification \"a\"] fn f() {} }");
    assert_eq!(error, ServiceSyntaxError::InvalidNotificationAttribute { item: 0 });
    let error = read("impl S { #[method = \"a\"] fn f(self) {} }");
    assert_eq!(error, ServiceSyntaxError::SelfByValue { item: 0, arg: 0 });
    let error = read("impl S { #[method = \"a\"] fn f(&mut self) {} }");
    assert_eq!(error, ServiceSyntaxError::MutableSelf { item: 0, arg: 0 });
    let error = read("impl S { #[method = \"a\"] fn f(&self, (a, b): (u8, u8)) {} }");
    assert_eq!(error, ServiceSyntaxError::PatternArgument { item: 0, arg: 1 });
}

#[test]
fn clients_are_read_from_source() {
    let items: Vec<syn::TraitItem> = vec![
        "#[method = \"delay\"] async fn wait(&self, millis: u64) -> Reply;",
        "#[notification = \"log\"] async fn log(&self, line: &str) -> Sent;",
    ]
    .into_iter()
    .map(|text| syn::parse_str(text).unwrap())
    .collect();
    assert_eq!(plain_trait_items(&items).len(), 2);
    let client = JsonRpcClientImpl::parse_items("C".to_owned(), &items).unwrap();
    assert_eq!(client.name, "C");
    assert_eq!(client.methods.get("wait", 0).unwrap().name, "delay");
    let log = client.notifications.get("log", 0).unwrap();
    assert_eq!(log.param_sigs(), vec![("line".to_owned(), 1)]);
    let other: Vec<syn::TraitItem> = vec![syn::parse_str("type T;").unwrap()];
    let error = JsonRpcClientImpl::parse_items("C".to_owned(), &other).unwrap_err();
    assert_eq!(error, ClientSyntaxError::NotMethod { item: 0 });
}

#[test]
fn names_are_read_out_of_string_literals() {
    let text = "impl S {
        #[x = c\"y\"]
        #[x(c\"y\")]
        #[method = \"caf\\u{e9} \\\"1\\\"\"]
        fn f() {}
        #[method = r#\"raw \"2\"\"#]
        fn g() {}
    }";
    let mut block: syn::ItemImpl = syn::parse_str(text).unwrap();
    let service = JsonRpcServiceImpl::parse_item_impl(&mut block).unwrap();
    assert!(service.methods.get("caf\u{e9} \"1\"", 0).is_some());
    assert!(service.methods.get("raw \"2\"", 0).is_some());
    match &block.items[0] {
        syn::ImplItem::Method(method) => assert_eq!(method.attrs.len(), 2),
        _ => panic!("no method"),
    }
    let items: Vec<syn::TraitItem> =
        vec![syn::parse_str("#[x = c\"y\"] #[method = \"m\"] fn f(&self);").unwrap()];
    let client = JsonRpcClientImpl::parse_items("C".to_owned(), &items).unwrap();
    assert_eq!(client.methods.get("f", 0).unwrap().name, "m");
}

#[test]
fn groups_without_delimiters_stand_for_what_is_in_them() {
    let group = |delimiter: proc_macro2::Delimiter, text: &str| {
        let stream: proc_macro2::TokenStream = text.parse().unwrap();
        proc_macro2::TokenTree::Group(proc_macro2::Group::new(delimiter, stream))
    };
    let read = |delimiter: proc_macro2::Delimiter| {
        let mut block: syn::ItemImpl =
            syn::parse_str("impl S { #[method = \"a\"] fn f() {} }").unwrap();
        let mut tokens: proc_macro2::TokenStream = "=".parse().unwrap();
        tokens.extend(vec![group(delimiter, "\"b\"")]);
        match &mut block.items[0] {
            syn::ImplItem::Method(method) => method.attrs[0].tokens = tokens,
            _ => panic!("no method"),
        }
        JsonRpcServiceImpl::parse_item_impl(&mut block)
    };
    let service = read(proc_macro2::Delimiter::None).unwrap();
    assert!(service.methods.get("b", 0).is_some());
    assert_eq!(
        read(proc_macro2::Delimiter::Parenthesis).unwrap_err(),
        ServiceSyntaxError::MethodNameNotString { item: 0 }
    );
}

#[test]
fn attributes_are_told_apart_by_their_tokens() {
    let equals = || Token::Punct('=');
    let literal = |text: &str| Token::Literal(text.to_owned());
    let string = || Some("a".to_owned());
    let named = vec![equals(), literal("\"a\"")];
    assert_eq!(find_string(&named), Some("\"a\"".to_owned()));
    assert_eq!(
        AttributeMeta::from_tokens(&named, string()),
        AttributeMeta::NameString("a".to_owned())
    );
    let raw = vec![equals(), literal("r\"a\"")];
    assert_eq!(find_string(&raw), Some("r\"a\"".to_owned()));
    for tokens in vec![
        vec![equals()],
        vec![equals(), literal("7")],
        vec![equals(), literal("c\"a\"")],
        vec![equals(), literal("b\"a\"")],
        vec![equals(), Token::Ident("a".to_owned())],
        vec![equals(), Token::Group],
        vec![equals(), literal("\"a\""), literal("\"a\"")],
    ] {
        assert_eq!(find_string(&tokens), None);
        assert_eq!(AttributeMeta::from_tokens(&tokens, string()), AttributeMeta::NameOther);
    }
    for tokens in vec![
        Vec::new(),
        vec![Token::Group],
        vec![literal("\"a\"")],
        vec![Token::Punct('-'), literal("\"a\"")],
    ] {
        assert_eq!(find_string(&tokens), None);
        assert_eq!(AttributeMeta::from_tokens(&tokens, string()), AttributeMeta::Other);
    }
}

#[test]
fn each_entry_of_a_table_is_at_one_index() {
    let service = service();
    let mut keys: Vec<(String, usize)> = Vec::new();
    for index in 0..service.methods.len() {
        let entry = service.methods.entry(index);
        keys.push((entry.name.clone(), entry.number));
        assert_eq!(service.methods.get(&entry.name, entry.number), Some(&entry.value));
    }
    assert_eq!(
        keys,
        vec![("add".to_owned(), 2), ("add".to_owned(), 1), ("now".to_owned(), 0)]
    );
    assert_eq!(service.notifications.len(), 1);
    assert_eq!(service.notifications.entry(0).name, "log");
    let table: Table<ServiceMethodSignature> = Table::new();
    assert_eq!(table.len(), 0);
}

#[test]
fn nothing_but_the_marks_is_taken_away() {
    let marked = "#[cfg(a)] unsafe impl<T: Clone> Service for Thing<T> where T: Copy {
        #![allow(unused)]
        #[method] const LIMIT: u8 = 1;
        type Output = (T, u8);
        #[doc = \"adds\"] #[method = \"add\"] #[method = \"sum\"] #[must_use]
        pub async fn add(&self, a: u8, mut b: Vec<T>) -> Result<u8, Error> { b.clear(); Ok(a) }
        #[inline(always)] #[notification = \"log\"] fn log(line: String) { drop(line) }
        #[cold] fn helper(self: Box<Self>, (a, b): (T, T)) -> ! { loop {} }
    }";
    let unmarked = "#[cfg(a)] unsafe impl<T: Clone> Service for Thing<T> where T: Copy {
        #![allow(unused)]
        #[method] const LIMIT: u8 = 1;
        type Output = (T, u8);
        #[doc = \"adds\"] #[method = \"sum\"] #[must_use]
        pub async fn add(&self, a: u8, mut b: Vec<T>) -> Result<u8, Error> { b.clear(); Ok(a) }
        #[inline(always)] fn log(line: String) { drop(line) }
        #[cold] fn helper(self: Box<Self>, (a, b): (T, T)) -> ! { loop {} }
    }";
    let mut block: syn::ItemImpl = syn::parse_str(marked).unwrap();
    let service = JsonRpcServiceImpl::parse_item_impl(&mut block).unwrap();
    assert_eq!(block, syn::parse_str::<syn::ItemImpl>(unmarked).unwrap());
    assert_eq!((service.methods.len(), service.notifications.len()), (1, 1));
    assert!(service.methods.get("add", 2).is_some());
    assert!(service.methods.get("sum", 2).is_none());
}

#[test]
fn one_name_may_be_a_method_and_a_notification() {
    let items = vec![
        item(vec![attribute("method", "m")], "f", vec![argument("a")]),
        item(vec![attribute("notification", "m")], "g", vec![argument("b")]),
        item(vec![attribute("method", "m")], "h", vec![shared()]),
    ];
    let service = JsonRpcServiceImpl::parse_impl(&mut ImplBlock { items }).unwrap();
    let by_name = service.resolve_method("m", array("{\"a\":1}")).unwrap();
    assert_eq!(by_name, service.resolve_method("m", array("[1]")).unwrap());
    assert_eq!(
        service.resolve_method("m", array("{\"b\":1}")).unwrap_err(),
        invalid("parameter a missing")
    );
    let by_name = service.resolve_notification("m", array("{\"b\":1}"));
    assert_eq!(by_name, service.resolve_notification("m", array("[1]")));
    assert_eq!(by_name.unwrap().item, 1);
}
