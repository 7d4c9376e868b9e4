use std::sync::Arc;

use servicelib::operators::case;
use servicelib::operators::join::can_call;
use servicelib::operators::{
    downcast_join_values, BuildSwitchFunction, CallAction, CallEvent, CallPhase, DelayFunction,
    DelayStep, ErrorStream, FilterFunction, FlatMapFunction, InputStream, JoinFunction, Joined,
    KeyByFunction, LinkStream, MapFunction, MultiJoinFunction, MultiJoinStream, ProcessEmission,
    ProcessFunction, Processed, SplitStream, SubStream, SubStreamCall,
};
use servicelib::runtime::common::{MessageContext, Payload};
use servicelib::runtime::config::{
    CallSemantics, CaseStreamConfig, CycleLinkStreamConfig, DelayStreamConfig, FilterStreamConfig,
    FlatMapIterableStreamConfig, FlatMapStreamConfig, InputStreamConfig, JoinStreamConfig,
    JoinType, KeyByStreamConfig, LinkConfig, MapStreamConfig, MergeStreamConfig,
    MultiJoinStreamConfig, ProcessStreamConfig, RuntimeConfig, RuntimeStreamConfig,
    SinkStreamConfig, SplitStreamConfig, StreamConfig, SubStreamConfig, WhenStreamConfig,
};
use servicelib::runtime::datastruct::KeyValue;
use servicelib::runtime::environment::{RuntimeEnvironment, SerdeKind};
use servicelib::runtime::error::RuntimeError;
use servicelib::runtime::stream::{Collected, Stream};

fn named(id: i32, name: &str) -> StreamConfig {
    StreamConfig { id, name: name.to_owned(), id_service: 1 }
}

fn config() -> RuntimeConfig {
    RuntimeConfig {
        service_id: Some(1),
        default_semantics: CallSemantics::FunctionCall,
        streams: vec![
            RuntimeStreamConfig::Plain(named(1, "source")),
            RuntimeStreamConfig::Input(InputStreamConfig {
                stream: named(10, "input"),
                endpoint_id: 77,
            }),
            RuntimeStreamConfig::Sink(SinkStreamConfig {
                stream: named(11, "sink"),
                endpoint_id: 78,
            }),
            RuntimeStreamConfig::Join(JoinStreamConfig {
                stream: named(12, "join"),
                join_type: JoinType::Inner,
            }),
        ],
        links: vec![LinkConfig { from: 5, to: 60, call_semantics: CallSemantics::TaskPool }],
        endpoints: vec![],
        data_connectors: vec![],
    }
}

fn environment() -> RuntimeEnvironment {
    RuntimeEnvironment::new(config(), false, false)
}

fn source<T>(environment: &mut RuntimeEnvironment) -> Stream<T> {
    Stream::new(&named(1, "source"), environment)
}

fn context() -> MessageContext {
    MessageContext::background()
}

struct Doubler;

impl MapFunction<u32, u64> for Doubler {
    fn map(&self, context: MessageContext, _: &Stream<u64>, value: &u32) -> Vec<Collected<u64>> {
        vec![Collected { context, value: u64::from(*value) * 2 }]
    }
}

impl FlatMapFunction<u32, u64> for Doubler {
    fn flat_map(
        &self,
        context: MessageContext,
        _: &Stream<u64>,
        value: &u32,
    ) -> Vec<Collected<u64>> {
        (0..*value).map(|i| Collected { context: context.clone(), value: u64::from(i) }).collect()
    }
}

impl KeyByFunction<u32, String, u32> for Doubler {
    fn key_by(
        &self,
        context: MessageContext,
        _: &Stream<KeyValue<String, u32>>,
        value: &u32,
    ) -> Vec<Collected<KeyValue<String, u32>>> {
        vec![Collected { context, value: KeyValue { key: value.to_string(), value: *value } }]
    }
}

impl FilterFunction<u32> for Doubler {
    fn filter(&self, _: MessageContext, _: &Stream<u32>, value: &u32) -> bool {
        value % 2 == 0
    }
}

impl DelayFunction<u32> for Doubler {
    fn duration(&self, _: MessageContext, _: &Stream<u32>, value: &u32) -> u128 {
        u128::from(*value)
    }

    fn delay_error(
        &self,
        context: MessageContext,
        _: &Stream<u32>,
        value: &u32,
        error: RuntimeError,
    ) -> Vec<Collected<u32>> {
        assert!(matches!(error, RuntimeError::ContextCancelled));
        vec![Collected { context, value: value + 100 }]
    }
}

impl ProcessFunction<u32, u64, String> for Doubler {
    fn process(
        &self,
        context: MessageContext,
        _: &Stream<u64>,
        value: &u32,
    ) -> Vec<Processed<u64, String>> {
        vec![
            Processed::Error(Collected { context: context.clone(), value: format!("e{value}") }),
            Processed::Out(Collected { context, value: u64::from(*value) }),
        ]
    }
}

impl JoinFunction<u32, u8, u16, String> for Doubler {
    fn join(
        &self,
        context: MessageContext,
        _: &Stream<String>,
        key: u32,
        left: Vec<u8>,
        right: Vec<u16>,
    ) -> Joined<String> {
        Joined {
            done: true,
            collected: vec![Collected { context, value: format!("{key}{left:?}{right:?}") }],
        }
    }
}

impl MultiJoinFunction<u32, Option<u8>, String> for Doubler {
    fn multi_join(
        &self,
        context: MessageContext,
        _: &Stream<String>,
        key: u32,
        values: Vec<Vec<Option<u8>>>,
    ) -> Joined<String> {
        Joined {
            done: false,
            collected: vec![Collected { context, value: format!("{key}{}", values.len()) }],
        }
    }
}

struct Selector;

impl BuildSwitchFunction<u32> for Selector {
    fn select(&self, value: &u32) -> usize {
        *value as usize
    }
}

#[test]
fn map_writes_what_the_function_hands_out() {
    let mut environment = environment();
    let stream: Stream<u32> = source(&mut environment);
    let config = MapStreamConfig { stream: named(5, "double") };
    let (output, operator) =
        stream.map::<u64, _>(&config, Doubler, &mut environment).ok().unwrap();
    assert_eq!(output.id(), 5);
    assert_eq!(stream.link_collector(&environment).unwrap().consumer, 5);
    let emissions = operator.consume(context(), Payload::new(21));
    assert_eq!(emissions.len(), 1);
    assert_eq!(*emissions[0].payload.get(), 42);
    assert_eq!(emissions[0].stream.id(), 5);
    assert!(matches!(
        stream.map::<u64, _>(&config, Doubler, &mut environment),
        Err(RuntimeError::ConsumerAlreadySet { stream }) if stream == "source"
    ));
}

#[test]
fn shared_functions_serve_several_operators() {
    let mut environment = environment();
    let stream: Stream<u32> = source(&mut environment);
    let function = Arc::new(Doubler);
    let (output, first) = stream
        .filter(&FilterStreamConfig { stream: named(5, "even") }, function.clone(), &mut environment)
        .ok()
        .unwrap();
    let (_, second) = output
        .flat_map::<u64, _>(
            &FlatMapStreamConfig { stream: named(6, "count") },
            function,
            &mut environment,
        )
        .ok()
        .unwrap();
    assert!(first.consume(context(), Payload::new(3)).is_none());
    let kept = first.consume(context(), Payload::new(2)).unwrap();
    let values: Vec<u64> =
        second.consume(kept.context, kept.payload).iter().map(|e| *e.payload.get()).collect();
    assert_eq!(values, vec![0, 1]);
}

#[test]
fn filter_output_shares_the_serde_of_its_source() {
    let mut environment = environment();
    let stream: Stream<u32> = source(&mut environment);
    let (output, _) = stream
        .filter(&FilterStreamConfig { stream: named(5, "even") }, Doubler, &mut environment)
        .ok()
        .unwrap();
    assert_eq!(output.get_serde(&environment), stream.get_serde(&environment));
    assert_eq!(output.serde_kind(&environment), SerdeKind::Inherited);
}

#[test]
fn key_by_gives_keys() {
    let mut environment = environment();
    let stream: Stream<u32> = source(&mut environment);
    let (output, operator) = stream
        .key_by::<String, u32, _>(
            &KeyByStreamConfig { stream: named(5, "keys") },
            Doubler,
            &mut environment,
        )
        .ok()
        .unwrap();
    assert_eq!(output.serde_kind(&environment), SerdeKind::KeyValue);
    assert_eq!(stream.serde_kind(&environment), SerdeKind::Whole);
    let emissions = operator.consume(context(), Payload::new(9));
    let pair = emissions[0].payload.get().clone();
    assert_eq!((pair.key.as_str(), pair.value), ("9", 9));
}

#[test]
fn iterables_are_written_item_by_item() {
    let mut environment = environment();
    let stream: Stream<Vec<u32>> = source(&mut environment);
    let config = FlatMapIterableStreamConfig { stream: named(5, "items") };
    let (_, operator) = stream.flat_map_iterable::<u32>(&config, &mut environment).ok().unwrap();
    let emissions = operator.consume(context(), Payload::new(vec![3, 1, 2]));
    let values: Vec<u32> = emissions.iter().map(|e| *e.payload.get()).collect();
    assert_eq!(values, vec![3, 1, 2]);
    assert!(operator.consume(context(), Payload::new(vec![])).is_empty());
}

#[test]
fn arrays_and_texts_are_iterables() {
    let mut environment = environment();
    let config = FlatMapIterableStreamConfig { stream: named(5, "items") };
    let arrays: Stream<[u8; 3]> = source(&mut environment);
    let (_, operator) = arrays.flat_map_iterable::<u8>(&config, &mut environment).ok().unwrap();
    let values: Vec<u8> = operator
        .consume(context(), Payload::new([9, 8, 7]))
        .iter()
        .map(|e| *e.payload.get())
        .collect();
    assert_eq!(values, vec![9, 8, 7]);
    let texts: Stream<String> = source(&mut environment);
    let (_, operator) = texts.flat_map_iterable::<char>(&config, &mut environment).ok().unwrap();
    let values: String = operator
        .consume(context(), Payload::new("h\u{e9}".to_owned()))
        .iter()
        .map(|e| *e.payload.get())
        .collect();
    assert_eq!(values, "h\u{e9}");
    let texts: Stream<String> = source(&mut environment);
    let (_, operator) = texts.flat_map_iterable::<u8>(&config, &mut environment).ok().unwrap();
    let values: Vec<u8> = operator
        .consume(context(), Payload::new("h\u{e9}".to_owned()))
        .iter()
        .map(|e| *e.payload.get())
        .collect();
    assert_eq!(values, vec![0x68, 0xc3, 0xa9]);
}

#[test]
fn process_keeps_the_order_of_results_and_errors() {
    let mut environment = environment();
    let stream: Stream<u32> = source(&mut environment);
    let (output, errors, operator) = stream
        .process::<u64, String, _>(
            &ProcessStreamConfig { stream: named(5, "work") },
            Doubler,
            &mut environment,
        )
        .ok()
        .unwrap();
    assert_eq!((output.id(), errors.id()), (5, -5));
    let emissions = operator.consume(context(), Payload::new(4));
    assert_eq!(emissions.len(), 2);
    assert!(matches!(&emissions[0], ProcessEmission::Error(e) if e.payload.get() == "e4"));
    assert!(matches!(&emissions[1], ProcessEmission::Out(e) if *e.payload.get() == 4));
}

#[test]
fn error_stream_mirrors_the_id_of_its_owner() {
    let mut environment = environment();
    let errors: ErrorStream<String> = ErrorStream::new(&named(1, "source"), &mut environment);
    assert_eq!(errors.stream().id(), -1);
    assert_eq!(errors.stream().name(&environment), "source");
    let emission = errors.emit(context(), Payload::new("x".to_owned()));
    assert_eq!(emission.payload.get(), "x");
}

#[test]
fn delayed_message_is_kept() {
    let mut environment = environment();
    let stream: Stream<u32> = source(&mut environment);
    let (_, operator) = stream
        .delay(&DelayStreamConfig { stream: named(5, "later") }, Doubler, &mut environment)
        .ok()
        .unwrap();
    let cancelled = context().with_cancellation(true);
    assert!(matches!(
        operator.consume(cancelled, Payload::new(0)),
        DelayStep::Emit(e) if *e.payload.get() == 0
    ));
    match operator.consume(context(), Payload::new(250)) {
        DelayStep::Schedule { duration, delayed, rejected } => {
            assert_eq!(duration, 250);
            let emission = operator.fire(delayed, false).unwrap();
            assert_eq!(*emission.payload.get(), 250);
            let emissions = operator.reject(rejected, RuntimeError::ContextCancelled);
            assert_eq!(*emissions[0].payload.get(), 350);
        }
        DelayStep::Emit(_) => panic!("expected a delay"),
    }
    match operator.consume(context(), Payload::new(1)) {
        DelayStep::Schedule { delayed, .. } => assert!(operator.fire(delayed, true).is_none()),
        DelayStep::Emit(_) => panic!("expected a delay"),
    }
}

#[test]
fn merge_connects_every_source() {
    let mut environment = environment();
    let first: Stream<u32> = source(&mut environment);
    let second: Stream<u32> = Stream::new(&named(2, "second"), &mut environment);
    let config = MergeStreamConfig { stream: named(5, "all") };
    let (output, operator) = first.merge(&config, &vec![second], &mut environment).ok().unwrap();
    assert_eq!(first.link_collector(&environment).unwrap().consumer, 5);
    assert_eq!(second.link_collector(&environment).unwrap().consumer, 5);
    assert_eq!(output.get_serde(&environment), first.get_serde(&environment));
    assert_eq!(*operator.consume(context(), Payload::new(6)).payload.get(), 6);
}

#[test]
fn merge_refuses_a_source_twice() {
    let mut environment = environment();
    let first: Stream<u32> = source(&mut environment);
    let config = MergeStreamConfig { stream: named(5, "all") };
    assert!(matches!(
        first.merge(&config, &vec![first], &mut environment),
        Err(RuntimeError::ConsumerAlreadySet { stream }) if stream == "source"
    ));
}

#[test]
fn link_takes_one_source() {
    let mut environment = environment();
    let first: Stream<u32> = source(&mut environment);
    let second: Stream<u32> = Stream::new(&named(2, "second"), &mut environment);
    let mut link: LinkStream<u32> =
        LinkStream::make(&CycleLinkStreamConfig { stream: named(5, "loop") }, &mut environment);
    assert!(link.source().is_none());
    assert!(link.set_source(&first, &mut environment).is_ok());
    assert_eq!(link.source().unwrap().id(), 1);
    assert!(matches!(
        link.set_source(&second, &mut environment),
        Err(RuntimeError::SourceAlreadySet { stream }) if stream == "loop"
    ));
    assert_eq!(link.consume(context(), Payload::new(1)).stream.id(), 5);
}

#[test]
fn case_picks_a_branch() {
    let mut environment = environment();
    let stream: Stream<u32> = source(&mut environment);
    let mut choice = stream
        .case(&CaseStreamConfig { stream: named(5, "choice") }, Selector, &mut environment)
        .ok()
        .unwrap();
    assert!(choice.is_empty());
    let first = choice.when(&WhenStreamConfig { stream: named(6, "first") }, &mut environment);
    let second =
        case::when(&WhenStreamConfig { stream: named(7, "second") }, &mut choice, &mut environment);
    assert_eq!((first.id(), second.id(), choice.len()), (6, 7, 2));
    assert_eq!(choice.consume(context(), Payload::new(1)).ok().unwrap().stream.id(), 7);
    assert_eq!(
        choice.consume(context(), Payload::new(2)).err().unwrap(),
        "case selector returned branch 2, but only 2 branches exist"
    );
    assert_eq!(
        case::missing_branch(7, 0),
        "case selector returned branch 7, but only 0 branches exist"
    );
    assert!(environment.graph_links().iter().any(|link| (link.from, link.to) == (5, 7)));
}

#[test]
fn typed_case_checks_its_branches() {
    let mut environment = environment();
    let stream: Stream<u32> = source(&mut environment);
    let mut choice = stream
        .case(&CaseStreamConfig { stream: named(5, "choice") }, Selector, &mut environment)
        .ok()
        .unwrap();
    let first = choice.when(&WhenStreamConfig { stream: named(6, "first") }, &mut environment);
    let second = choice.when(&WhenStreamConfig { stream: named(7, "second") }, &mut environment);
    let typed =
        choice.from_branches((first.collector(), (second.collector(), ()))).ok().unwrap();
    assert_eq!(typed.consume(context(), Payload::new(0)).ok().unwrap().stream.id(), 6);
    for result in [
        choice.from_branches((second.collector(), (first.collector(), ()))).map(|_| ()),
        choice.from_branches((first.collector(), ())).map(|_| ()),
    ] {
        assert!(matches!(
            result,
            Err(RuntimeError::InvalidConfiguration(text)) if text
                == "case 5 typed branches must match the registered When streams in order"
        ));
    }
}

#[test]
fn split_serves_waiting_branches_last() {
    let mut environment = environment();
    let stream: Stream<u32> = source(&mut environment);
    let config = SplitStreamConfig { stream: named(5, "fan") };
    let (links, mut operator) = stream.split::<2>(&config, &mut environment).ok().unwrap();
    assert_eq!(links[1].name(&environment), "fanSplitLink1");
    assert!(matches!(
        operator.build(&environment),
        Err(RuntimeError::ConsumerNotSet { stream }) if stream == "fanSplitLink0"
    ));
    assert!(links[0].try_set_consumer(&mut environment, 61).is_ok());
    assert!(links[1].try_set_consumer(&mut environment, 60).is_ok());
    assert!(operator.build(&environment).is_ok());
    let emissions = operator.consume(context(), Payload::new(8));
    let consumers: Vec<i32> = emissions
        .iter()
        .map(|e| e.stream.link_collector(&environment).unwrap().consumer)
        .collect();
    assert_eq!(consumers, vec![60, 61]);
    assert!(emissions.iter().all(|e| *e.payload.get() == 8));
}

#[test]
fn typed_split_checks_the_number_of_branches() {
    let mut environment = environment();
    let stream: Stream<u32> = source(&mut environment);
    let config = SplitStreamConfig { stream: named(5, "fan") };
    let branch: Stream<u32> = Stream::new(&named(6, "one"), &mut environment);
    let result: Result<SplitStream<u32, 2, _>, _> =
        SplitStream::from_typed(&config, &stream, (branch.collector(), ()), &mut environment);
    assert!(matches!(
        result,
        Err(RuntimeError::InvalidConfiguration(text))
            if text == "split fan requires 2 branches, received 1"
    ));
    let single: SplitStream<u32, 1, _> =
        SplitStream::from_typed(&config, &stream, (branch.collector(), ()), &mut environment)
            .ok()
            .unwrap();
    assert_eq!(single.consume(context(), Payload::new(3))[0].stream.id(), 6);
}

#[test]
fn join_types_decide_when_the_function_is_called() {
    for (join_type, expected) in [
        (JoinType::Undefined, [false, false, false, false]),
        (JoinType::Inner, [false, false, false, true]),
        (JoinType::Left, [false, true, false, true]),
        (JoinType::Right, [false, false, true, true]),
        (JoinType::Outer, [true, true, true, true]),
    ] {
        let found = [
            can_call(join_type, false, false),
            can_call(join_type, true, false),
            can_call(join_type, false, true),
            can_call(join_type, true, true),
        ];
        assert_eq!(found, expected);
    }
}

#[test]
fn join_hands_over_values_that_met() {
    let mut environment = environment();
    let left: Stream<KeyValue<u32, u8>> = source(&mut environment);
    let right: Stream<KeyValue<u32, u16>> = Stream::new(&named(2, "right"), &mut environment);
    let config = JoinStreamConfig { stream: named(12, "join"), join_type: JoinType::Inner };
    let (output, operator) =
        left.join::<u16, String, _>(&config, &right, Doubler, &mut environment, Ok(()))
            .ok()
            .unwrap();
    assert_eq!(output.id(), 12);
    let entry = operator.consume(context(), Payload::new(KeyValue { key: 4, value: 1 }));
    assert_eq!((entry.key, entry.index, entry.value), (4, 0, 1));
    let entry = operator.right().consume(context(), Payload::new(KeyValue { key: 4, value: 2 }));
    assert_eq!((entry.key, entry.index, entry.value), (4, 1, 2));
    let (done, emissions) =
        operator.call_function(&environment, context(), 4, vec![1], vec![]);
    assert!(!done && emissions.is_empty());
    let (done, emissions) =
        operator.call_function(&environment, context(), 4, vec![1], vec![2]);
    assert!(done);
    assert_eq!(emissions[0].payload.get(), "4[1][2]");
}

#[test]
fn join_refuses_one_stream_on_both_sides() {
    let mut environment = environment();
    let left: Stream<KeyValue<u32, u16>> = source(&mut environment);
    let config = JoinStreamConfig { stream: named(12, "join"), join_type: JoinType::Inner };
    let result = left.join::<u16, String, u8>(&config, &left, 0, &mut environment, Ok(()));
    assert!(matches!(
        result,
        Err(RuntimeError::ConsumerAlreadySet { stream }) if stream == "source"
    ));
}

#[test]
fn joins_without_storage_metrics_connect_nothing() {
    let mut environment = environment();
    let lost = || Err(RuntimeError::Transport("lost".to_owned()));
    let left: Stream<KeyValue<u32, u8>> = source(&mut environment);
    let right: Stream<KeyValue<u32, u16>> = Stream::new(&named(2, "right"), &mut environment);
    let config = JoinStreamConfig { stream: named(12, "join"), join_type: JoinType::Inner };
    assert!(matches!(
        left.join::<u16, String, _>(&config, &right, Doubler, &mut environment, lost()),
        Err(RuntimeError::Transport(text)) if text == "lost"
    ));
    let config = MultiJoinStreamConfig { stream: named(5, "meet") };
    assert!(matches!(
        left.multi_join::<Option<u8>, String, _>(&config, Doubler, &mut environment, lost()),
        Err(RuntimeError::Transport(text)) if text == "lost"
    ));
    assert!(environment.graph_links().is_empty());
}

#[test]
fn multi_join_numbers_its_inputs() {
    let mut environment = environment();
    let left: Stream<KeyValue<u32, u8>> = source(&mut environment);
    let second: Stream<KeyValue<u32, u16>> = Stream::new(&named(2, "second"), &mut environment);
    let third: Stream<KeyValue<u32, u64>> = Stream::new(&named(3, "third"), &mut environment);
    let config = MultiJoinStreamConfig { stream: named(5, "meet") };
    let (mut operator, link): (MultiJoinStream<u32, Option<u8>, String, Doubler>, _) =
        left.multi_join(&config, Doubler, &mut environment, Ok(())).ok().unwrap();
    assert_eq!(link.index, 0);
    assert_eq!(operator.add(&second, &mut environment).ok().unwrap().index, 1);
    assert!(operator.add(&second, &mut environment).is_err());
    assert_eq!(operator.add(&third, &mut environment).ok().unwrap().index, 3);
    let entry = link.consume(context(), Payload::new(KeyValue { key: 4, value: 1 }));
    assert_eq!((entry.key, entry.index, entry.value), (4, 0, 1));
    let collector = operator.stream().collector();
    let (done, emissions) =
        operator.call_function(&collector, context(), 4, vec![vec![], vec![Some(1)]]);
    assert!(!done && emissions.is_empty());
    let (_, emissions) =
        operator.call_function(&collector, context(), 4, vec![vec![Some(1)], vec![]]);
    assert_eq!(emissions[0].payload.get(), "42");
}

#[test]
fn join_values_are_found_by_their_input() {
    let values: Vec<Vec<Option<u8>>> = vec![vec![Some(1), Some(2)], vec![Some(3)]];
    assert_eq!(downcast_join_values::<u8, _>(&values, 0), vec![1, 2]);
    assert_eq!(downcast_join_values::<u8, _>(&values, 1), vec![3]);
    assert!(downcast_join_values::<u8, _>(&values, 2).is_empty());
    let payloads = vec![vec![Payload::new("a".to_owned())]];
    assert_eq!(downcast_join_values::<String, _>(&payloads, 0), vec!["a".to_owned()]);
}

#[test]
fn input_hands_results_to_its_consumer() {
    let mut environment = environment();
    let config = InputStreamConfig { stream: named(10, "input"), endpoint_id: 77 };
    let mut input: InputStream<u32, String, String, &str> =
        InputStream::new(config, &mut environment);
    assert_eq!(input.endpoint_id(&environment), 77);
    assert_eq!((input.stream().id(), input.error_stream().id()), (10, -10));
    assert!(input.consume_result(context(), Payload::new("r".to_owned())).is_none());
    input.set_result_consumer("consumer");
    let (consumer, _, payload) =
        input.consume_result(context(), Payload::new("r".to_owned())).unwrap();
    assert_eq!((*consumer, payload.get().as_str()), ("consumer", "r"));
    let results: Stream<String> = Stream::new(&named(2, "results"), &mut environment);
    assert!(input.result_stream().is_none());
    assert!(input.set_source(&results, &mut environment).is_ok());
    assert_eq!(input.result_stream().unwrap().id(), 2);
    assert!(input.set_source(&results, &mut environment).is_err());
    assert_eq!(*input.consume(context(), 5).payload.get(), 5);
}

#[test]
fn last_sink_consumer_prevails() {
    let mut environment = environment();
    let stream: Stream<u32> = source(&mut environment);
    let config = SinkStreamConfig { stream: named(11, "sink"), endpoint_id: 78 };
    let mut sink = stream.sink::<String, &str>(&config, &mut environment).ok().unwrap();
    assert_eq!((sink.id(), sink.endpoint_id(&environment)), (11, 78));
    assert_eq!(sink.name(&environment), "sink");
    assert!(sink.consume(context(), Payload::new(1)).is_none());
    assert!(sink.set_sink_consumer("first").is_ok());
    assert!(sink.set_sink_consumer("second").is_ok());
    let (consumer, _, payload) = sink.consume(context(), Payload::new(1)).unwrap();
    assert_eq!(*payload.get(), 1);
    assert_eq!(*consumer, "second");
}

#[test]
fn sinks_with_results_write_them() {
    let mut environment = environment();
    let stream: Stream<u32> = source(&mut environment);
    let config = SinkStreamConfig { stream: named(11, "sink"), endpoint_id: 78 };
    let sink =
        stream.sink_with_result::<u64, String, &str>(&config, &mut environment).ok().unwrap();
    assert_eq!((sink.id(), sink.error_stream().id()), (11, -11));
    let emission = sink.consume_result(context(), Payload::new(9));
    assert_eq!((emission.stream.id(), *emission.payload.get()), (11, 9));
}

fn called(environment: &mut RuntimeEnvironment) -> SubStream<u32, u64> {
    let mut sub: SubStream<u32, u64> =
        SubStream::new(&SubStreamConfig { stream: named(20, "sub") }, environment);
    let results: Stream<u64> = source(environment);
    assert!(matches!(
        sub.build(environment),
        Err(RuntimeError::ConsumerNotSet { stream }) if stream == "sub"
    ));
    assert!(sub.stream().try_set_consumer(environment, 21).is_ok());
    assert!(matches!(
        sub.build(environment),
        Err(RuntimeError::InvalidConfiguration(text))
            if text == "SubStream result source is missing"
    ));
    let stranger: Stream<u64> = Stream::new(&named(99, "stranger"), environment);
    assert!(matches!(
        sub.set_source(&stranger, environment),
        Err(RuntimeError::InvalidConfiguration(text)) if text
            == "SubStream result source must be a different stream in the same service"
    ));
    assert!(sub.set_source(&results, environment).is_ok());
    assert!(matches!(
        sub.set_source(&results, environment),
        Err(RuntimeError::SourceAlreadySet { stream }) if stream == "sub"
    ));
    sub
}

#[test]
fn sub_stream_is_called_once_it_is_built() {
    let mut environment = environment();
    let sub = called(&mut environment);
    assert!(sub.build(&environment).is_ok());
    let (call, emission) = sub.consume(context(), 3, &environment).ok().unwrap();
    assert_eq!((call.open, call.phase), (true, CallPhase::Dispatching));
    assert_eq!((emission.stream.id(), *emission.payload.get()), (20, 3));
    assert!(matches!(
        sub.consume(context().with_cancellation(true), 3, &environment),
        Err(RuntimeError::ContextCancelled)
    ));
    let mut moved = config();
    moved.service_id = Some(2);
    environment.reload(moved);
    assert!(matches!(
        sub.build(&environment),
        Err(RuntimeError::InvalidConfiguration(text))
            if text == "SubStream belongs to a different service"
    ));
}

#[test]
fn sub_stream_call_ends_once() {
    let call =
        SubStreamCall { open: true, delivering: false, phase: CallPhase::Dispatching };
    let (call, action) = call.step(CallEvent::Result { cancelled: false });
    assert_eq!(action, CallAction::Collect);
    let (call, action) = call.step(CallEvent::Result { cancelled: false });
    assert_eq!(action, CallAction::Idle);
    let (call, action) = call.step(CallEvent::Dispatched { cancelled: false });
    assert_eq!(action, CallAction::Idle);
    let (call, action) = call.step(CallEvent::Collected { enough: true, cancelled: false });
    assert_eq!(action, CallAction::Succeed);
    assert_eq!(call.phase, CallPhase::Over { cancelled: false });
    for event in [
        CallEvent::Cancelled,
        CallEvent::Result { cancelled: false },
        CallEvent::Dispatched { cancelled: true },
        CallEvent::Collected { enough: true, cancelled: false },
    ] {
        assert_eq!(call.step(event), (call, CallAction::Idle));
    }
}

#[test]
fn cancelled_sub_stream_call_waits_for_the_collector() {
    let call = SubStreamCall { open: true, delivering: true, phase: CallPhase::Waiting };
    let (call, action) = call.step(CallEvent::Cancelled);
    assert_eq!(action, CallAction::Idle);
    assert!(!call.open);
    let (call, action) = call.step(CallEvent::Collected { enough: false, cancelled: true });
    assert_eq!(action, CallAction::Fail);
    assert_eq!(call.phase, CallPhase::Over { cancelled: true });
}

#[test]
fn cancelled_call_fails_though_the_collector_has_enough() {
    let call = SubStreamCall { open: true, delivering: true, phase: CallPhase::Waiting };
    let (call, action) = call.step(CallEvent::Collected { enough: true, cancelled: true });
    assert_eq!(action, CallAction::Fail);
    assert_eq!(call.phase, CallPhase::Over { cancelled: true });
}
