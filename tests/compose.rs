use docker_compose_types::{
    AdvancedBuildStep, AdvancedBuildStepBuilder, IncludeBuilder, ServiceBuilder, BuildStep, Command, ComposeFile, ComposeNetworks, ComposeSecret,
    ComposeSecrets, Compose, Environment, Extension, Labels, MapOrEmpty, Node, OrderedMap,
    ParseError, PullPolicy, Service, SingleValue, Ulimit, Volumes, Yaml, YamlEntry,
};

fn from_value(v: &serde_yaml::Value) -> Yaml {
    match v {
        serde_yaml::Value::Null => Yaml::Null,
        serde_yaml::Value::Bool(b) => Yaml::Bool(*b),
        serde_yaml::Value::Number(n) => {
            if let Some(u) = n.as_u64() {
                Yaml::Int(u as i128)
            } else if let Some(i) = n.as_i64() {
                Yaml::Int(i as i128)
            } else {
                Yaml::Float(n.to_string())
            }
        }
        serde_yaml::Value::String(s) => Yaml::Str(s.clone()),
        serde_yaml::Value::Sequence(items) => Yaml::List(items.iter().map(from_value).collect()),
        serde_yaml::Value::Mapping(m) => Yaml::Mapping(
            m.iter()
                .map(|(k, v)| YamlEntry { key: from_value(k), value: from_value(v) })
                .collect(),
        ),
        serde_yaml::Value::Tagged(t) => from_value(&t.value),
    }
}

fn to_value(y: &Yaml) -> serde_yaml::Value {
    match y {
        Yaml::Null => serde_yaml::Value::Null,
        Yaml::Bool(b) => serde_yaml::Value::Bool(*b),
        Yaml::Int(i) => {
            if *i >= 0 {
                serde_yaml::Value::Number((*i as u64).into())
            } else {
                serde_yaml::Value::Number((*i as i64).into())
            }
        }
        Yaml::Float(t) => serde_yaml::Value::Number(t.parse::<f64>().unwrap().into()),
        Yaml::Str(s) => serde_yaml::Value::String(s.clone()),
        Yaml::List(items) => serde_yaml::Value::Sequence(items.iter().map(to_value).collect()),
        Yaml::Mapping(es) => {
            let mut m = serde_yaml::Mapping::new();
            for e in es {
                m.insert(to_value(&e.key), to_value(&e.value));
            }
            serde_yaml::Value::Mapping(m)
        }
    }
}

fn yaml(text: &str) -> Yaml {
    from_value(&serde_yaml::from_str::<serde_yaml::Value>(text).unwrap())
}

fn write(y: &Yaml) -> String {
    serde_yaml::to_string(&to_value(y)).unwrap()
}

fn entry<'a>(y: &'a Yaml, k: &str) -> &'a Yaml {
    match y {
        Yaml::Mapping(es) => {
            &es.iter()
                .find(|e| matches!(&e.key, Yaml::Str(s) if s == k))
                .unwrap()
                .value
        }
        _ => panic!("not a mapping"),
    }
}

fn service_of(text: &str) -> Service {
    Service::from_yaml(&yaml(text)).unwrap()
}

#[test]
fn volumes() {
    let v = r#"
volumes:
  - source: /host/path
    target: /container/path
    type: bind
    read_only: true
  - source: foobar
    type: volume
    target: /container/volumepath
  - type: volume
    target: /anonymous
  - type: volume
    source: foobar
    target: /container/volumepath2
    volume:
      nocopy: true
"#;
    let doc = yaml(v);
    let parsed = Vec::<Volumes>::from_yaml(entry(&doc, "volumes")).unwrap();
    assert_eq!(parsed.len(), 4);
    match &parsed[0] {
        Volumes::Advanced(a) => {
            assert_eq!(a._type, "bind");
            assert!(a.read_only);
            assert_eq!(a.source.as_deref(), Some("/host/path"));
        }
        Volumes::Simple(_) => panic!("expected the long form"),
    }
    match &parsed[3] {
        Volumes::Advanced(a) => assert_eq!(a.volume.as_ref().unwrap().nocopy, Some(true)),
        Volumes::Simple(_) => panic!("expected the long form"),
    }
}

#[test]
fn short_volume_stays_text() {
    let parsed = Volumes::from_yaml(&Yaml::Str("./data:/data:ro".to_string())).unwrap();
    assert_eq!(parsed, Volumes::Simple("./data:/data:ro".to_string()));
}

#[test]
fn long_volume_without_type_fails() {
    let r = Volumes::from_yaml(&yaml("target: /x\nsource: y\n"));
    assert_eq!(r, Err(ParseError::TypeMismatch("a volume string or a volume record".to_string())));
    let doc = yaml("target: /x\n");
    let r = docker_compose_types::AdvancedVolumes::from_yaml(&doc);
    assert_eq!(r, Err(ParseError::MissingField("type".to_string())));
}

const FULL: &str = r#"
version: "3.8"
name: demo
services:
  web:
    image: nginx:latest
    ports:
      - "80:80"
    environment:
      A: 1
      B:
    labels:
      - "tier=front"
    depends_on:
      db:
        condition: service_healthy
    healthcheck:
      test: ["CMD", "true"]
      retries: 3
    networks:
      front:
      back:
        aliases: [web1]
    ulimits:
      nproc: 65535
      nofile:
        soft: 20000
        hard: 40000
    x-note: kept
  db:
    build:
      context: ./db
      args:
        VERSION: "1"
    command: postgres -c fsync=off
    volumes:
      - data:/var/lib/postgresql/data
    secrets:
      - source: pw
        mode: "0440"
    pull_policy: if_not_present
volumes:
  data:
networks:
  front:
  back:
    driver: bridge
    ipam:
      config:
        - subnet: 10.0.0.0/24
secrets:
  pw:
    file: ./pw.txt
  token:
    environment: TOKEN
  ext:
    external: true
    name: real
x-custom:
  foo: 1
"#;

#[test]
fn full_document_round_trips() {
    let first = ComposeFile::from_yaml(&yaml(FULL)).unwrap();
    let text = write(&first.to_yaml());
    let second = ComposeFile::from_yaml(&yaml(&text)).unwrap();
    assert_eq!(first, second);
    match &first {
        ComposeFile::V2Plus(c) => {
            assert_eq!(c.services.0.len(), 2);
            let web = c.services.0.get("web").unwrap().as_ref().unwrap();
            assert_eq!(web.image(), "nginx:latest");
            assert_eq!(web.extensions.len(), 1);
            assert_eq!(web.ulimits.0.get("nproc"), Some(&Ulimit::Single(65535)));
            assert_eq!(
                web.ulimits.0.get("nofile"),
                Some(&Ulimit::SoftHard { soft: 20000, hard: 40000 })
            );
            let db = c.services.0.get("db").unwrap().as_ref().unwrap();
            assert_eq!(db.pull_policy, Some(PullPolicy::Missing));
            assert_eq!(db.command, Some(Command::Simple("postgres -c fsync=off".to_string())));
            assert!(matches!(db.build_, Some(BuildStep::Advanced(_))));
            let secrets = c.secrets.as_ref().unwrap();
            assert_eq!(
                secrets.0.get("pw"),
                Some(&Some(ComposeSecret::File("./pw.txt".to_string())))
            );
            assert_eq!(
                secrets.0.get("token"),
                Some(&Some(ComposeSecret::Environment("TOKEN".to_string())))
            );
            assert_eq!(
                secrets.0.get("ext"),
                Some(&Some(ComposeSecret::External { external: true, name: "real".to_string() }))
            );
            assert_eq!(c.volumes.0.get("data"), Some(&MapOrEmpty::Empty));
        }
        _ => panic!("expected a full document"),
    }
}

#[test]
fn default_service_writes_empty_mapping() {
    let s = Service::default();
    assert_eq!(s.to_yaml(), Yaml::Mapping(Vec::new()));
    assert_eq!(Compose::new().to_yaml(), Yaml::Mapping(Vec::new()));
}

#[test]
fn false_and_zero_fields_are_omitted() {
    let s = service_of("image: a\nprivileged: false\nscale: 0\ncap_add: []\n");
    assert_eq!(write(&s.to_yaml()), "image: a\n");
    let t = service_of("privileged: true\nscale: 2\n");
    assert_eq!(write(&t.to_yaml()), "privileged: true\nscale: 2\n");
}

#[test]
fn extension_round_trip() {
    let doc = ComposeFile::from_yaml(&yaml("services: {}\nx-custom:\n  foo: 1\n")).unwrap();
    let c = match &doc {
        ComposeFile::V2Plus(c) => c,
        _ => panic!("expected a full document"),
    };
    assert_eq!(c.extensions.len(), 1);
    assert_eq!(c.extensions.entries[0].0, "x-custom");
    assert_eq!(
        c.extensions.entries[0].1,
        Yaml::Mapping(vec![YamlEntry { key: Yaml::Str("foo".to_string()), value: Yaml::Int(1) }])
    );
    let out = write(&doc.to_yaml());
    assert_eq!(out, "x-custom:\n  foo: 1\n");
}

#[test]
fn extension_rejection() {
    let y = yaml("services: {}\ncustom-thing: 1\n");
    assert_eq!(Compose::from_yaml(&y), Err(ParseError::ExtensionKey("custom-thing".to_string())));
    match ComposeFile::from_yaml(&y) {
        Err(ParseError::NoMatchingVariant(errors)) => {
            assert_eq!(errors.len(), 3);
            assert_eq!(errors[0], ParseError::ExtensionKey("custom-thing".to_string()));
            assert_eq!(errors[2], ParseError::MissingField("service".to_string()));
        }
        other => panic!("unexpected {other:?}"),
    }
}

#[test]
fn environment_list_and_map() {
    let s = service_of("environment: [\"A=1\", \"B=2\"]\n");
    assert_eq!(
        s.environment,
        Environment::List(vec!["A=1".to_string(), "B=2".to_string()])
    );
    let t = service_of("environment: {A: 1, B: null}\n");
    let mut m = OrderedMap::new();
    m.insert("A".to_string(), Some(SingleValue::Unsigned(1)));
    m.insert("B".to_string(), None);
    assert_eq!(t.environment, Environment::KvPair(m));
    assert!(Environment::default().is_empty());
}

#[test]
fn single_service_is_selected() {
    let doc = ComposeFile::from_yaml(&yaml("service:\n  image: nginx\n")).unwrap();
    match doc {
        ComposeFile::Single(s) => assert_eq!(s.service.image(), "nginx"),
        other => panic!("unexpected {other:?}"),
    }
}

#[test]
fn legacy_service_map() {
    let doc = ComposeFile::from_yaml(&yaml("web:\n  image: nginx\ndb:\n  image: postgres\n")).unwrap();
    match doc {
        ComposeFile::V1(m) => {
            assert_eq!(m.len(), 2);
            assert_eq!(m.get("db").unwrap().image(), "postgres");
        }
        other => panic!("unexpected {other:?}"),
    }
}

#[test]
fn extends_string_and_map() {
    let s = service_of("extends: base\n");
    let mut m = OrderedMap::new();
    m.insert("service".to_string(), "base".to_string());
    assert_eq!(s.extends, m);
    let t = service_of("extends:\n  service: base\n  file: other.yml\n");
    let mut n = OrderedMap::new();
    n.insert("service".to_string(), "base".to_string());
    n.insert("file".to_string(), "other.yml".to_string());
    assert_eq!(t.extends, n);
    let bad = Service::from_yaml(&yaml("extends: {service: 1}\n"));
    assert_eq!(
        bad,
        Err(ParseError::TypeMismatch(
            "extends must must have string type for both Keys and Values".to_string()
        ))
    );
    let worse = Service::from_yaml(&yaml("extends: 3\n"));
    assert_eq!(
        worse,
        Err(ParseError::TypeMismatch("extends must either be a map or a string".to_string()))
    );
}

#[test]
fn strict_build_step_rejects_unknown_key() {
    let y = yaml("context: .\nfoo: 1\n");
    assert_eq!(AdvancedBuildStep::from_yaml(&y), Err(ParseError::UnknownField("foo".to_string())));
    assert_eq!(
        BuildStep::from_yaml(&y),
        Err(ParseError::TypeMismatch("a context path or a build record".to_string()))
    );
    let ok = BuildStep::from_yaml(&yaml("context: .\ndockerfile: Dockerfile.dev\n")).unwrap();
    match ok {
        BuildStep::Advanced(a) => assert_eq!(a.dockerfile.as_deref(), Some("Dockerfile.dev")),
        BuildStep::Simple(_) => panic!("expected the long form"),
    }
    assert_eq!(
        BuildStep::from_yaml(&Yaml::Str(".".to_string())),
        Ok(BuildStep::Simple(".".to_string()))
    );
}

#[test]
fn extension_keys() {
    let e = Extension::parse("x-foo").unwrap();
    assert_eq!(e.as_str(), "x-foo");
    let err = Extension::parse("foo").unwrap_err();
    assert_eq!(err.0, "foo");
    assert_eq!(
        err.message(),
        "unknown attribute \"foo\", extensions must start with 'x-' (see https://docs.docker.com/compose/compose-file/#extension)"
    );
    let odd = Extension::parse("a\"b\\c\n").unwrap_err();
    assert_eq!(
        odd.message(),
        format!(
            "unknown attribute {:?}, extensions must start with 'x-' (see https://docs.docker.com/compose/compose-file/#extension)",
            "a\"b\\c\n"
        )
    );
    assert_eq!(
        odd.message(),
        "unknown attribute \"a\\\"b\\\\c\\n\", extensions must start with 'x-' (see https://docs.docker.com/compose/compose-file/#extension)"
    );
    assert_eq!(
        docker_compose_types::ExtensionParseError::message_with("'k'"),
        "unknown attribute 'k', extensions must start with 'x-' (see https://docs.docker.com/compose/compose-file/#extension)"
    );
    assert!(Extension::try_from_string("x-".to_string()).is_ok());
    assert!(Extension::try_from_string("x".to_string()).is_err());
}

#[test]
fn labels_and_empty_settings() {
    let s = service_of("labels:\n  a: b\n");
    let mut m = OrderedMap::new();
    m.insert("a".to_string(), "b".to_string());
    assert_eq!(s.labels, Labels::Mapping(m));
    let n = ComposeNetworks::from_yaml(&yaml("front:\nback: {}\nside:\n  driver: overlay\n"))
        .unwrap();
    assert_eq!(n.0.get("front"), Some(&MapOrEmpty::Empty));
    assert_eq!(n.0.get("back"), Some(&MapOrEmpty::Empty));
    assert!(matches!(n.0.get("side"), Some(MapOrEmpty::Mapping(_))));
    let written = n.to_yaml();
    assert_eq!(write(&written), "front: {}\nback: {}\nside:\n  driver: overlay\n");
    assert_eq!(ComposeNetworks::from_yaml(&written).unwrap(), n);
    let side: Option<docker_compose_types::NetworkSettings> =
        n.0.get("side").unwrap().clone().into();
    assert_eq!(side.unwrap().driver.as_deref(), Some("overlay"));
    let back: Option<docker_compose_types::NetworkSettings> = n.0.get("back").unwrap().clone().into();
    assert_eq!(back, None);
}

#[test]
fn empty_marker_written_as_empty_mapping() {
    let e: MapOrEmpty<docker_compose_types::NetworkSettings> = MapOrEmpty::Empty;
    assert_eq!(e.to_yaml(), Yaml::Mapping(Vec::new()));
    let read = MapOrEmpty::<docker_compose_types::NetworkSettings>::from_yaml(&yaml("{}")).unwrap();
    assert_eq!(read, MapOrEmpty::Empty);
    assert_eq!(read.into_option(), None);
}

#[test]
fn extends_errors_name_the_rule() {
    let keys = "extends must must have string type for both Keys and Values".to_string();
    let shape = "extends must either be a map or a string".to_string();
    assert_eq!(
        Service::from_yaml(&yaml("extends: {service: base, n: 1}\n")),
        Err(ParseError::TypeMismatch(keys.clone()))
    );
    assert_eq!(
        Service::from_yaml(&yaml("extends: {service: null}\n")),
        Err(ParseError::TypeMismatch(keys))
    );
    assert_eq!(
        Service::from_yaml(&yaml("extends: [a]\n")),
        Err(ParseError::TypeMismatch(shape.clone()))
    );
    assert_eq!(Service::from_yaml(&yaml("extends: null\n")), Err(ParseError::TypeMismatch(shape)));
}

#[test]
fn single_shape_failure_holds_one_error() {
    match ComposeFile::from_yaml(&yaml("service: 3\n")) {
        Err(ParseError::NoMatchingVariant(errors)) => assert_eq!(errors.len(), 1),
        other => panic!("unexpected {other:?}"),
    }
}

#[test]
fn unknown_service_key_needs_prefix() {
    assert_eq!(
        Service::from_yaml(&yaml("image: a\nbogus: 1\n")),
        Err(ParseError::ExtensionKey("bogus".to_string()))
    );
    let s = service_of("image: a\nx-bogus: 1\n");
    assert_eq!(s.extensions.len(), 1);
}

#[test]
fn type_mismatch_and_duplicates() {
    assert_eq!(
        Service::from_yaml(&yaml("image: [a]\n")),
        Err(ParseError::TypeMismatch("a string".to_string()))
    );
    let dup = Yaml::Mapping(vec![
        YamlEntry { key: Yaml::Str("image".to_string()), value: Yaml::Str("a".to_string()) },
        YamlEntry { key: Yaml::Str("image".to_string()), value: Yaml::Str("b".to_string()) },
    ]);
    assert_eq!(Service::from_yaml(&dup), Err(ParseError::TypeMismatch("image".to_string())));
}

#[test]
fn single_value_order() {
    assert_eq!(SingleValue::from_yaml(&Yaml::Int(5)), Ok(SingleValue::Unsigned(5)));
    assert_eq!(SingleValue::from_yaml(&Yaml::Int(-5)), Ok(SingleValue::Signed(-5)));
    assert_eq!(SingleValue::from_yaml(&Yaml::Bool(true)), Ok(SingleValue::Bool(true)));
    assert_eq!(
        SingleValue::from_yaml(&Yaml::Str("5".to_string())),
        Ok(SingleValue::String("5".to_string()))
    );
    assert_eq!(
        SingleValue::from_yaml(&Yaml::Float("0.5".to_string())),
        Ok(SingleValue::Float("0.5".to_string()))
    );
    assert!(SingleValue::from_yaml(&Yaml::Int(-(1i128 << 70))).is_err());
    assert!(SingleValue::String("z".to_string()) < SingleValue::Bool(false));
}

#[test]
fn getters_default_to_empty() {
    let s = Service::default();
    assert_eq!(s.image(), "");
    assert_eq!(s.network_mode(), "");
    let t = service_of("network_mode: host\n");
    assert_eq!(t.network_mode(), "host");
}

#[test]
fn secrets_are_kept_in_order() {
    let s = ComposeSecrets::from_yaml(&yaml("b:\n  file: x\na:\n")).unwrap();
    assert_eq!(s.0.entries[0].0, "b");
    assert_eq!(s.0.entries[1].1, None);
    assert!(ComposeSecrets::from_yaml(&yaml("c:\n  file: x\n  name: y\n")).is_err());
}

#[test]
fn builders_set_fields() {
    let s = ServiceBuilder::new()
        .image(Some("nginx".to_string()))
        .privileged(true)
        .scale(3)
        .build()
        .unwrap();
    assert_eq!(s.image(), "nginx");
    assert!(s.privileged);
    assert_eq!(s.scale, 3);
    assert_eq!(write(&s.to_yaml()), "privileged: true\nimage: nginx\nscale: 3\n");
    let b = AdvancedBuildStepBuilder::new()
        .context(".".to_string())
        .dockerfile(Some("Dockerfile".to_string()))
        .build()
        .unwrap();
    assert_eq!(b.context, ".");
    assert_eq!(b.dockerfile.as_deref(), Some("Dockerfile"));
    assert!(b.cache_from.is_empty());
    let i = IncludeBuilder::new().path(Some("a.yml".to_string())).build().unwrap();
    assert_eq!(i.path.as_deref(), Some("a.yml"));
    assert_eq!(i.env_file, None);
}

#[test]
fn single_value_text() {
    assert_eq!(SingleValue::Unsigned(1234).to_text(), "1234");
    assert_eq!(SingleValue::Unsigned(0).to_text(), "0");
    assert_eq!(SingleValue::Signed(-42).to_text(), "-42");
    assert_eq!(SingleValue::Signed(i64::MIN).to_text(), "-9223372036854775808");
    assert_eq!(SingleValue::Unsigned(u64::MAX).to_text(), "18446744073709551615");
    assert_eq!(SingleValue::Bool(false).to_text(), "false");
    assert_eq!(SingleValue::String("abc".to_string()).to_text(), "abc");
    assert_eq!(SingleValue::Float("0.25".to_string()).to_text(), "0.25");
}

#[test]
fn extension_from_str() {
    let e: Extension = "x-a".parse().unwrap();
    assert_eq!(e.as_str(), "x-a");
    assert!("a".parse::<Extension>().is_err());
    let tried = Extension::try_from("x-b".to_string()).unwrap();
    assert_eq!(tried.as_str(), "x-b");
    assert_eq!(Extension::try_from("b".to_string()).unwrap_err().0, "b");
    assert_eq!(Extension::try_from("x-custom".to_string()).unwrap().as_str(), "x-custom");
    assert_eq!(Extension::try_from("x-".to_string()).unwrap().as_str(), "x-");
    assert_eq!(Extension::try_from("X-custom".to_string()).unwrap_err().0, "X-custom");
    assert_eq!(Extension::try_from("custom-thing".to_string()).unwrap_err().0, "custom-thing");
    assert_eq!(
        "custom-thing".parse::<Extension>().unwrap_err(),
        Extension::try_from("custom-thing".to_string()).unwrap_err()
    );
    let again = Extension::try_from(tried.as_str().to_string()).unwrap();
    assert_eq!(again, tried);
}

#[test]
fn empty_markers_and_options() {
    let m: MapOrEmpty<u64> = MapOrEmpty::Empty;
    assert_eq!(m.into_option(), None);
    assert_eq!(MapOrEmpty::Mapping(3u64).into_option(), Some(3));
    assert!(ComposeNetworks::default().is_empty());
    assert!(docker_compose_types::Ports::default().is_empty());
    assert!(docker_compose_types::Secrets::Advanced(Vec::new()).is_empty());
    assert!(!docker_compose_types::Labels::List(vec!["a=b".to_string()]).is_empty());
}

#[test]
fn write_and_read_returns_the_document() {
    let doc = ComposeFile::from_yaml(&yaml(FULL)).unwrap();
    let (node, back) = docker_compose_types::write_and_read(&doc);
    assert_eq!(back.unwrap(), doc);
    assert_eq!(ComposeFile::from_yaml(&node).unwrap(), doc);
    let single = ComposeFile::from_yaml(&yaml("service:\n  image: a\n")).unwrap();
    assert_eq!(docker_compose_types::write_and_read(&single).1.unwrap(), single);
}
