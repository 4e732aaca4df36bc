use resource_versions::codec::{
    decode, encode, parse, render, saved_text, FieldError, ParseError,
};
use resource_versions::config::{
    same_texts, BucketAnswers, BucketInfo, CorsPolicy, Credentials, RegionWrapper, ServerConfig,
    ServerConfigCliWrapper,
};
use resource_versions::loader::{
    load_config, missing_fields, shown, BucketField, ConfigError, FileRead,
};
use resource_versions::mode::Build;

fn sample_bucket() -> BucketInfo {
    BucketInfo::new(
        "versions".to_string(),
        RegionWrapper::new("eu-central-1".to_string(), "https://store.example".to_string()),
        Credentials::new("AKIDEXAMPLE".to_string(), "wJalr/secret".to_string()),
    )
}

fn sample_config() -> ServerConfig {
    ServerConfig::new(
        "0.0.0.0:9000".to_string(),
        vec!["https://a.example".to_string(), "https://b.example".to_string()],
        sample_bucket(),
    )
}

fn sample_answers() -> BucketAnswers {
    BucketAnswers {
        region: "r1".to_string(),
        endpoint: "http://localhost:9000".to_string(),
        name: "bucket".to_string(),
        access_key: "access".to_string(),
        secret_key: "secret".to_string(),
    }
}

fn assert_sample_bucket(info: &BucketInfo) {
    assert_eq!(info.name, "versions");
    assert_eq!(info.region.region(), "eu-central-1");
    assert_eq!(info.region.endpoint(), "https://store.example");
    assert_eq!(info.credentials.access_key, "AKIDEXAMPLE");
    assert_eq!(info.credentials.secret_key, "wJalr/secret");
}

#[test]
fn config_paths_by_profile() {
    assert_eq!(Build::Development.config_path(), "config/Development.toml");
    assert_eq!(Build::Production.config_path(), "config/Production.toml");
}

#[test]
fn development_defaults() {
    let partial = ServerConfigCliWrapper::default_development();
    assert_eq!(partial.bind_addr, "127.0.0.1:8080");
    assert!(partial.cors_origins.is_empty());
    assert!(partial.bucket_info.is_none());
}

#[test]
fn production_defaults() {
    let partial = ServerConfigCliWrapper::default_production();
    assert_eq!(partial.bind_addr, "0.0.0.0:8080");
    assert!(partial.cors_origins.is_empty());
    assert!(partial.bucket_info.is_none());
}

#[test]
fn defaults_follow_the_profile() {
    assert_eq!(ServerConfigCliWrapper::default_by_build(Build::Development).bind_addr, "127.0.0.1:8080");
    assert_eq!(ServerConfigCliWrapper::default_by_build(Build::Production).bind_addr, "0.0.0.0:8080");
}

#[test]
fn credentials_are_never_shown() {
    let one = Credentials::new("AKIDEXAMPLE".to_string(), "wJalr/secret".to_string());
    let other = Credentials::new(String::new(), "x".to_string());
    assert_eq!(one.redacted(), "[Credentials hidden]");
    assert_eq!(other.redacted(), "[Credentials hidden]");
    assert!(!one.redacted().contains("AKIDEXAMPLE"));
    assert!(!one.redacted().contains("wJalr/secret"));
}

#[test]
fn keys_are_echoed_as_the_placeholder() {
    let info = sample_bucket();
    assert_eq!(shown(&info, BucketField::Region), "eu-central-1");
    assert_eq!(shown(&info, BucketField::Endpoint), "https://store.example");
    assert_eq!(shown(&info, BucketField::Name), "versions");
    assert_eq!(shown(&info, BucketField::AccessKey), "[Credentials hidden]");
    assert_eq!(shown(&info, BucketField::SecretKey), "[Credentials hidden]");
}

#[test]
fn development_without_origins_is_unrestricted() {
    let open = ServerConfig::new("h:1".to_string(), Vec::new(), sample_bucket());
    assert!(matches!(open.cors_policy(Build::Development), CorsPolicy::Unrestricted));
    match open.cors_policy(Build::Production) {
        CorsPolicy::Origins(list) => assert!(list.is_empty()),
        CorsPolicy::Unrestricted => panic!("production allows listed origins only"),
    }
    let listed = sample_config();
    match listed.cors_policy(Build::Development) {
        CorsPolicy::Origins(list) => assert_eq!(list.len(), 2),
        CorsPolicy::Unrestricted => panic!("origins are listed"),
    }
    match listed.cors_policy(Build::Production) {
        CorsPolicy::Origins(list) => assert_eq!(list[0], "https://a.example"),
        CorsPolicy::Unrestricted => panic!("origins are listed"),
    }
}

#[test]
fn clones_keep_every_field() {
    let copy = sample_bucket().clone();
    assert_sample_bucket(&copy);
}

#[test]
fn a_partial_configuration_waits_for_the_operator() {
    let partial = ServerConfigCliWrapper::new("127.0.0.1:1".to_string(), vec!["o".to_string()]);
    assert_eq!(
        missing_fields(&partial),
        vec![
            BucketField::Region,
            BucketField::Endpoint,
            BucketField::Name,
            BucketField::AccessKey,
            BucketField::SecretKey,
        ]
    );
    match partial.into_server_config() {
        Ok(_) => panic!("nothing was supplied yet"),
        Err(back) => {
            assert_eq!(back.bind_addr, "127.0.0.1:1");
            assert_eq!(back.cors_origins, vec!["o".to_string()]);
            assert!(back.bucket_info.is_none());
        }
    }
}

#[test]
fn a_complete_configuration_needs_nothing() {
    let mut partial = ServerConfigCliWrapper::new("127.0.0.1:1".to_string(), Vec::new());
    partial.bucket_info = Some(sample_bucket());
    assert!(missing_fields(&partial).is_empty());
    match partial.into_server_config() {
        Ok(config) => {
            assert_eq!(config.bind_addr, "127.0.0.1:1");
            assert_sample_bucket(&config.bucket_info);
        }
        Err(_) => panic!("the bucket connection was there"),
    }
}

#[test]
fn answers_fill_a_missing_bucket() {
    let partial = ServerConfigCliWrapper::default_development();
    let config = partial.into_server_config_prompted(sample_answers());
    assert_eq!(config.bind_addr, "127.0.0.1:8080");
    assert!(config.cors_origins.is_empty());
    assert_eq!(config.bucket_info.name, "bucket");
    assert_eq!(config.bucket_info.region.region(), "r1");
    assert_eq!(config.bucket_info.region.endpoint(), "http://localhost:9000");
    assert_eq!(config.bucket_info.credentials.access_key, "access");
    assert_eq!(config.bucket_info.credentials.secret_key, "secret");
}

#[test]
fn answers_do_not_replace_a_bucket_that_is_there() {
    let mut partial = ServerConfigCliWrapper::default_production();
    partial.bucket_info = Some(sample_bucket());
    let config = partial.into_server_config_prompted(sample_answers());
    assert_sample_bucket(&config.bucket_info);
}

#[test]
fn labels_and_secrecy_of_the_prompts() {
    assert_eq!(BucketField::Region.label(), "bucket region");
    assert_eq!(BucketField::Endpoint.label(), "bucket endpoint");
    assert_eq!(BucketField::Name.label(), "bucket name");
    assert_eq!(BucketField::AccessKey.label(), "bucket access key");
    assert_eq!(BucketField::SecretKey.label(), "bucket secret key");
    assert!(!BucketField::Region.is_secret());
    assert!(!BucketField::Endpoint.is_secret());
    assert!(!BucketField::Name.is_secret());
    assert!(BucketField::AccessKey.is_secret());
    assert!(BucketField::SecretKey.is_secret());
}

#[test]
fn answers_are_recorded_one_by_one() {
    let answers = BucketAnswers::empty();
    assert_eq!(answers.region, "");
    assert_eq!(answers.secret_key, "");
    let answers = answers
        .with_answer(BucketField::Region, "r".to_string())
        .with_answer(BucketField::Endpoint, "e".to_string())
        .with_answer(BucketField::Name, "n".to_string())
        .with_answer(BucketField::AccessKey, "a".to_string())
        .with_answer(BucketField::SecretKey, "s".to_string());
    assert_eq!(answers.region, "r");
    assert_eq!(answers.endpoint, "e");
    assert_eq!(answers.name, "n");
    assert_eq!(answers.access_key, "a");
    assert_eq!(answers.secret_key, "s");
    let answers = answers.with_answer(BucketField::Name, "other".to_string());
    assert_eq!(answers.region, "r");
    assert_eq!(answers.name, "other");
    assert_eq!(answers.secret_key, "s");
}

#[test]
fn a_full_file_is_read() {
    let text = r#"
bind-addr = "10.0.0.1:80"
cors-origins = ["https://a.example"]

[bucket-info]
name = "versions"

[bucket-info.region]
region = "eu-central-1"
endpoint = "https://store.example"

[bucket-info.credentials]
access-key = "AKIDEXAMPLE"
secret-key = "wJalr/secret"
"#;
    let partial = match parse(text, Build::Production) {
        Ok(partial) => partial,
        Err(_) => panic!("the text is a configuration"),
    };
    assert_eq!(partial.bind_addr, "10.0.0.1:80");
    assert_eq!(partial.cors_origins, vec!["https://a.example".to_string()]);
    match &partial.bucket_info {
        Some(info) => assert_sample_bucket(info),
        None => panic!("the bucket connection is in the text"),
    }
}

#[test]
fn a_file_without_bucket_is_partial() {
    let partial = match parse("bind-addr = \"10.0.0.1:80\"\ncors-origins = []\n", Build::Development) {
        Ok(partial) => partial,
        Err(_) => panic!("the text is a configuration"),
    };
    assert_eq!(partial.bind_addr, "10.0.0.1:80");
    assert!(partial.cors_origins.is_empty());
    assert!(partial.bucket_info.is_none());
}

#[test]
fn missing_origins_default_to_none() {
    let partial = match parse("bind-addr = \"10.0.0.1:80\"\n", Build::Production) {
        Ok(partial) => partial,
        Err(_) => panic!("the text is a configuration"),
    };
    assert!(partial.cors_origins.is_empty());
}

#[test]
fn an_incomplete_bucket_counts_as_missing() {
    let text = r#"
bind-addr = "10.0.0.1:80"

[bucket-info]
name = "versions"

[bucket-info.region]
region = "eu-central-1"
endpoint = "https://store.example"

[bucket-info.credentials]
access-key = "AKIDEXAMPLE"
"#;
    let partial = match parse(text, Build::Production) {
        Ok(partial) => partial,
        Err(_) => panic!("an incomplete bucket is no reason to refuse"),
    };
    assert!(partial.bucket_info.is_none());
    let wrong_type = "bind-addr = \"h:1\"\nbucket-info = 3\n";
    match parse(wrong_type, Build::Production) {
        Ok(partial) => assert!(partial.bucket_info.is_none()),
        Err(_) => panic!("an ill-formed bucket is no reason to refuse"),
    }
}

#[test]
fn unknown_keys_are_ignored() {
    let partial = match parse("bind-addr = \"h:1\"\nextra = true\n", Build::Development) {
        Ok(partial) => partial,
        Err(_) => panic!("the text is a configuration"),
    };
    assert_eq!(partial.bind_addr, "h:1");
}

#[test]
fn a_missing_bind_address_is_refused() {
    assert!(matches!(
        parse("cors-origins = []\n", Build::Development),
        Err(ParseError::Field(FieldError::BindAddr))
    ));
    assert!(matches!(
        parse("bind-addr = 8080\n", Build::Development),
        Err(ParseError::Field(FieldError::BindAddr))
    ));
    assert!(matches!(parse("", Build::Production), Err(ParseError::Field(FieldError::BindAddr))));
}

#[test]
fn ill_formed_origins_are_refused() {
    assert!(matches!(
        parse("bind-addr = \"h:1\"\ncors-origins = \"all\"\n", Build::Development),
        Err(ParseError::Field(FieldError::CorsOrigins))
    ));
    assert!(matches!(
        parse("bind-addr = \"h:1\"\ncors-origins = [\"a\", 2]\n", Build::Development),
        Err(ParseError::Field(FieldError::CorsOrigins))
    ));
}

#[test]
fn field_errors_say_what_is_wrong() {
    assert_eq!(FieldError::BindAddr.message(), "`bind-addr` is missing or is not a string");
    assert_eq!(FieldError::CorsOrigins.message(), "`cors-origins` is not an array of strings");
}

#[test]
fn the_bind_address_is_looked_at_first() {
    assert!(matches!(
        parse("cors-origins = 1\n", Build::Development),
        Err(ParseError::Field(FieldError::BindAddr))
    ));
}

#[test]
fn text_that_is_no_toml_is_refused() {
    assert!(matches!(parse("bind-addr = ", Build::Development), Err(ParseError::Syntax(_))));
    assert!(matches!(parse("[[[", Build::Production), Err(ParseError::Syntax(_))));
}

#[test]
fn a_document_holds_every_setting_under_its_key() {
    let table = encode(&sample_config());
    assert_eq!(table.len(), 3);
    assert_eq!(table.get("bind-addr").and_then(|v| v.as_str()), Some("0.0.0.0:9000"));
    let origins = table.get("cors-origins").and_then(|v| v.as_array()).expect("an array");
    assert_eq!(origins.len(), 2);
    assert_eq!(origins[0].as_str(), Some("https://a.example"));
    assert_eq!(origins[1].as_str(), Some("https://b.example"));
    let bucket = table.get("bucket-info").and_then(|v| v.as_table()).expect("a table");
    assert_eq!(bucket.len(), 3);
    assert_eq!(bucket.get("name").and_then(|v| v.as_str()), Some("versions"));
    let region = bucket.get("region").and_then(|v| v.as_table()).expect("a table");
    assert_eq!(region.len(), 2);
    assert_eq!(region.get("region").and_then(|v| v.as_str()), Some("eu-central-1"));
    assert_eq!(region.get("endpoint").and_then(|v| v.as_str()), Some("https://store.example"));
    let credentials = bucket.get("credentials").and_then(|v| v.as_table()).expect("a table");
    assert_eq!(credentials.len(), 2);
    assert_eq!(credentials.get("access-key").and_then(|v| v.as_str()), Some("AKIDEXAMPLE"));
    assert_eq!(credentials.get("secret-key").and_then(|v| v.as_str()), Some("wJalr/secret"));
}

#[test]
fn a_document_is_read_key_by_key() {
    let mut table = toml::Table::new();
    table.insert("bind-addr".to_string(), toml::Value::String("h:1".to_string()));
    table.insert(
        "cors-origins".to_string(),
        toml::Value::Array(vec![toml::Value::String("o".to_string())]),
    );
    let partial = match decode(&table, Build::Development) {
        Ok(partial) => partial,
        Err(_) => panic!("the document is a configuration"),
    };
    assert_eq!(partial.bind_addr, "h:1");
    assert_eq!(partial.cors_origins, vec!["o".to_string()]);
    assert!(partial.bucket_info.is_none());
    table.insert("bind-addr".to_string(), toml::Value::Integer(1));
    assert_eq!(decode(&table, Build::Development).err(), Some(FieldError::BindAddr));
}

#[test]
fn what_is_written_reads_back_equal() {
    let config = sample_config();
    let text = render(&config).expect("a configuration can be written");
    let partial = match parse(&text, Build::Development) {
        Ok(partial) => partial,
        Err(_) => panic!("what was written is a configuration"),
    };
    assert_eq!(partial.bind_addr, "0.0.0.0:9000");
    assert_eq!(
        partial.cors_origins,
        vec!["https://a.example".to_string(), "https://b.example".to_string()]
    );
    match &partial.bucket_info {
        Some(info) => assert_sample_bucket(info),
        None => panic!("the bucket connection was written"),
    }
    let again = render(&partial.into_server_config_prompted(BucketAnswers::empty()))
        .expect("a configuration can be written");
    assert_eq!(again, text);
}

#[test]
fn awkward_strings_read_back_equal() {
    let config = ServerConfig::new(
        "[::1]:8080".to_string(),
        vec!["quote \" and \\ backslash".to_string(), "line\nbreak".to_string(), String::new()],
        BucketInfo::new(
            "名前".to_string(),
            RegionWrapper::new("a = b".to_string(), "# not a comment".to_string()),
            Credentials::new("'single'".to_string(), "tab\there".to_string()),
        ),
    );
    let text = render(&config).expect("a configuration can be written");
    let partial = match parse(&text, Build::Production) {
        Ok(partial) => partial,
        Err(_) => panic!("what was written is a configuration"),
    };
    assert_eq!(partial.bind_addr, "[::1]:8080");
    assert_eq!(
        partial.cors_origins,
        vec!["quote \" and \\ backslash".to_string(), "line\nbreak".to_string(), String::new()]
    );
    let info = partial.bucket_info.expect("the bucket connection was written");
    assert_eq!(info.name, "名前");
    assert_eq!(info.region.region(), "a = b");
    assert_eq!(info.region.endpoint(), "# not a comment");
    assert_eq!(info.credentials.access_key, "'single'");
    assert_eq!(info.credentials.secret_key, "tab\there");
}

#[test]
fn the_written_text_names_the_keys() {
    let text = render(&sample_config()).expect("a configuration can be written");
    assert!(text.contains("bind-addr = \"0.0.0.0:9000\""));
    assert!(text.contains("cors-origins = ["));
    assert!(text.contains("[bucket-info]"));
    assert!(text.contains("[bucket-info.region]"));
    assert!(text.contains("[bucket-info.credentials]"));
    assert!(text.contains("access-key = \"AKIDEXAMPLE\""));
    assert!(text.contains("secret-key = \"wJalr/secret\""));
}

#[test]
fn a_missing_file_gives_the_defaults() {
    match load_config(Build::Development, FileRead::NotFound) {
        Ok(partial) => {
            assert_eq!(partial.bind_addr, "127.0.0.1:8080");
            assert!(partial.bucket_info.is_none());
        }
        Err(_) => panic!("a missing file is no error"),
    }
    match load_config(Build::Production, FileRead::NotFound) {
        Ok(partial) => assert_eq!(partial.bind_addr, "0.0.0.0:8080"),
        Err(_) => panic!("a missing file is no error"),
    }
}

#[test]
fn an_unreadable_file_is_an_io_error() {
    match load_config(Build::Development, FileRead::Failed("permission denied".to_string())) {
        Err(ConfigError::Io(reason)) => assert_eq!(reason, "permission denied"),
        _ => panic!("the file could not be read"),
    }
}

#[test]
fn a_malformed_file_is_never_replaced_by_defaults() {
    assert!(matches!(
        load_config(Build::Development, FileRead::Found("bind-addr = [".to_string())),
        Err(ConfigError::Toml(ParseError::Syntax(_)))
    ));
    assert!(matches!(
        load_config(Build::Development, FileRead::Found("cors-origins = []".to_string())),
        Err(ConfigError::Toml(ParseError::Field(FieldError::BindAddr)))
    ));
}

#[test]
fn a_saved_configuration_is_not_prompted_for_again() {
    let first = match load_config(Build::Production, FileRead::NotFound) {
        Ok(partial) => partial,
        Err(_) => panic!("a missing file is no error"),
    };
    assert_eq!(missing_fields(&first).len(), 5);
    let config = first.into_server_config_prompted(sample_answers());
    let saved = render(&config).expect("a configuration can be written");

    let second = match load_config(Build::Production, FileRead::Found(saved.clone())) {
        Ok(partial) => partial,
        Err(_) => panic!("what was saved is a configuration"),
    };
    assert!(missing_fields(&second).is_empty());
    let again = match second.into_server_config() {
        Ok(config) => config,
        Err(_) => panic!("nothing is missing"),
    };
    assert_eq!(again.bind_addr, "0.0.0.0:8080");
    assert!(again.cors_origins.is_empty());
    assert_eq!(again.bucket_info.name, "bucket");
    assert_eq!(again.bucket_info.region.region(), "r1");
    assert_eq!(again.bucket_info.region.endpoint(), "http://localhost:9000");
    assert_eq!(again.bucket_info.credentials.access_key, "access");
    assert_eq!(again.bucket_info.credentials.secret_key, "secret");
    assert_eq!(render(&again).expect("a configuration can be written"), saved);
}

#[test]
fn the_saved_text_is_the_written_text() {
    let config = sample_config();
    let written = render(&config).expect("a configuration can be written");
    match saved_text(&config, Build::Development) {
        Ok(text) => assert_eq!(text, written),
        Err(_) => panic!("the text reads back as written"),
    }
    match saved_text(&config, Build::Production) {
        Ok(text) => assert_eq!(text, written),
        Err(_) => panic!("the text reads back as written"),
    }
}

#[test]
fn the_saved_text_loads_without_a_prompt() {
    let config = ServerConfigCliWrapper::default_development()
        .into_server_config_prompted(sample_answers());
    let text = match saved_text(&config, Build::Development) {
        Ok(text) => text,
        Err(_) => panic!("the text reads back as written"),
    };
    let loaded = match load_config(Build::Development, FileRead::Found(text)) {
        Ok(partial) => partial,
        Err(_) => panic!("what was saved is a configuration"),
    };
    assert!(loaded.holds(&config));
    assert!(missing_fields(&loaded).is_empty());
}

#[test]
fn settings_are_compared_one_by_one() {
    let keys = Credentials::new("a".to_string(), "s".to_string());
    assert!(keys.same_as(&Credentials::new("a".to_string(), "s".to_string())));
    assert!(!keys.same_as(&Credentials::new("a".to_string(), "t".to_string())));
    assert!(!keys.same_as(&Credentials::new("b".to_string(), "s".to_string())));
    let region = RegionWrapper::new("r".to_string(), "e".to_string());
    assert!(region.same_as(&RegionWrapper::new("r".to_string(), "e".to_string())));
    assert!(!region.same_as(&RegionWrapper::new("r".to_string(), "f".to_string())));
    assert!(!region.same_as(&RegionWrapper::new("q".to_string(), "e".to_string())));
    let info = sample_bucket();
    assert!(info.same_as(&sample_bucket()));
    let mut renamed = sample_bucket();
    renamed.name = "other".to_string();
    assert!(!info.same_as(&renamed));
    let mut rekeyed = sample_bucket();
    rekeyed.credentials.secret_key = "other".to_string();
    assert!(!info.same_as(&rekeyed));
}

#[test]
fn lists_are_compared_in_order() {
    let empty: Vec<String> = Vec::new();
    let ab = vec!["a".to_string(), "b".to_string()];
    let ba = vec!["b".to_string(), "a".to_string()];
    let a = vec!["a".to_string()];
    assert!(same_texts(&empty, &empty));
    assert!(same_texts(&ab, &ab.clone()));
    assert!(!same_texts(&ab, &ba));
    assert!(!same_texts(&ab, &a));
    assert!(!same_texts(&empty, &a));
}

#[test]
fn a_partial_configuration_holds_a_complete_one_or_not() {
    let config = sample_config();
    let mut partial = ServerConfigCliWrapper::new(
        "0.0.0.0:9000".to_string(),
        vec!["https://a.example".to_string(), "https://b.example".to_string()],
    );
    assert!(!partial.holds(&config));
    partial.bucket_info = Some(sample_bucket());
    assert!(partial.holds(&config));
    partial.bind_addr = "0.0.0.0:9001".to_string();
    assert!(!partial.holds(&config));
    partial.bind_addr = "0.0.0.0:9000".to_string();
    partial.cors_origins.pop();
    assert!(!partial.holds(&config));
}
