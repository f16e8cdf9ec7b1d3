use zombodb::options::{
    bulk_concurrency_for, default_bulk_concurrency, RefreshInterval, Relation, ZDBIndexOptions, DEFAULT_BATCH_SIZE,
    DEFAULT_COMPRESSION_LEVEL, DEFAULT_OPTIMIZE_AFTER, DEFAULT_SHARDS, DEFAULT_TYPE_NAME,
};

fn relation(oid: u32, name: &str, options: Option<ZDBIndexOptions>) -> Relation {
    Relation {
        oid,
        name: name.to_string(),
        namespace_oid: 2200,
        namespace_name: "public".to_string(),
        database_oid: 16384,
        database_name: "pgx_tests".to_string(),
        is_index: options.is_some(),
        options,
    }
}

fn heap() -> Relation {
    Relation { is_index: false, ..relation(16385, "test", None) }
}

fn index_without_options() -> Relation {
    Relation { is_index: true, ..relation(16388, "idxtest", None) }
}

fn options_with_url(url: &str) -> ZDBIndexOptions {
    let mut o = ZDBIndexOptions::defaults(0, 4);
    o.url = Some(url.to_string());
    o
}

#[test]
fn test_index_options() {
    let uuid: u64 = 8_472_199_455_018_233_991;
    let mut stored = ZDBIndexOptions::defaults(0, default_bulk_concurrency());
    stored.url = Some("http://localhost:19200/".to_string());
    stored.es_type_name = Some("test_type_name".to_string());
    stored.alias = Some("test_alias".to_string());
    stored.uuid = Some(uuid.to_string());
    stored.refresh_interval = Some("5s".to_string());
    stored.translog_durability = Some("async".to_string());
    let heaprel = heap();
    let indexrel = relation(16388, "idxtest", Some(stored));
    let options = ZDBIndexOptions::from(&indexrel, 0, default_bulk_concurrency());
    assert_eq!(&options.url(None), "http://localhost:19200/");
    assert_eq!(&options.es_type_name(), "test_type_name");
    assert_eq!(&options.alias(&heaprel, &indexrel), "test_alias");
    assert_eq!(&options.uuid(&heaprel, &indexrel), &uuid.to_string());
    assert_eq!(
        options.refresh_interval(),
        RefreshInterval::Background("5s".to_owned())
    );
    assert_eq!(options.compression_level(), 1);
    assert_eq!(options.shards(), 5);
    assert_eq!(options.replicas(), 0);
    assert_eq!(options.bulk_concurrency(), num_cpus::get() as i32);
    assert_eq!(options.batch_size(), 8 * 1024 * 1024);
    assert_eq!(options.optimize_after(), DEFAULT_OPTIMIZE_AFTER);
    assert_eq!(options.llapi(), false);
    assert_eq!(options.translog_durability(), "async")
}

#[test]
fn test_index_options_defaults() {
    let heaprel = heap();
    let indexrel = index_without_options();
    let default_replicas = 1;
    let options = ZDBIndexOptions::from(&indexrel, default_replicas, default_bulk_concurrency());
    assert_eq!(&options.es_type_name(), DEFAULT_TYPE_NAME);
    assert_eq!(
        &options.alias(&heaprel, &indexrel),
        &format!("pgx_tests.public.test.idxtest-{}", indexrel.oid)
    );
    assert_eq!(
        &options.uuid(&heaprel, &indexrel),
        &format!(
            "{}.{}.{}.{}",
            indexrel.database_oid, indexrel.namespace_oid, heaprel.oid, indexrel.oid
        )
    );
    assert_eq!(options.refresh_interval(), RefreshInterval::Immediate);
    assert_eq!(options.compression_level(), DEFAULT_COMPRESSION_LEVEL);
    assert_eq!(options.shards(), DEFAULT_SHARDS);
    assert_eq!(options.replicas(), default_replicas);
    assert_eq!(options.bulk_concurrency(), num_cpus::get() as i32);
    assert_eq!(options.batch_size(), DEFAULT_BATCH_SIZE);
    assert_eq!(options.optimize_after(), DEFAULT_OPTIMIZE_AFTER);
    assert_eq!(options.llapi(), false);
    assert_eq!(options.translog_durability(), "request")
}

#[test]
fn test_index_name() {
    let heaprel = heap();
    let indexrel = index_without_options();
    let options = ZDBIndexOptions::from(&indexrel, 0, default_bulk_concurrency());
    assert_eq!(
        options.index_name(&heaprel, &indexrel),
        options.uuid(&heaprel, &indexrel)
    );
    assert_eq!(options.index_name(&heaprel, &indexrel), "16384.2200.16385.16388");
}

#[test]
fn test_index_url() {
    let indexrel = relation(16388, "idxtest", Some(options_with_url("http://localhost:19200/")));
    let options = ZDBIndexOptions::from(&indexrel, 0, default_bulk_concurrency());
    assert_eq!(options.url(None), "http://localhost:19200/");
    assert!(!options.uses_default_url());
}

#[test]
fn test_index_type_name() {
    let options = ZDBIndexOptions::from(&index_without_options(), 0, default_bulk_concurrency());
    assert_eq!(options.es_type_name(), "doc");
}

#[test]
fn url_falls_back_to_server_default() {
    let server = Some("http://es.example:9200/".to_string());
    let unset = ZDBIndexOptions::defaults(0, 1);
    assert!(unset.uses_default_url());
    assert_eq!(unset.url(server.clone()), "http://es.example:9200/");
    let literal_default = options_with_url("default");
    assert!(literal_default.uses_default_url());
    assert_eq!(literal_default.url(server.clone()), "http://es.example:9200/");
    let own = options_with_url("http://own:9200/");
    assert_eq!(own.url(server), "http://own:9200/");
}

#[test]
fn refresh_interval_keywords() {
    let mut o = ZDBIndexOptions::defaults(0, 1);
    assert_eq!(o.refresh_interval(), RefreshInterval::Immediate);
    o.refresh_interval = Some("immediate".to_string());
    assert_eq!(o.refresh_interval(), RefreshInterval::Immediate);
    o.refresh_interval = Some("-1".to_string());
    assert_eq!(o.refresh_interval(), RefreshInterval::Immediate);
    o.refresh_interval = Some("async".to_string());
    assert_eq!(o.refresh_interval(), RefreshInterval::ImmediateAsync);
    o.refresh_interval = Some("30s".to_string());
    assert_eq!(o.refresh_interval(), RefreshInterval::Background("30s".to_string()));
    o.refresh_interval = Some("Async".to_string());
    assert_eq!(o.refresh_interval(), RefreshInterval::Background("Async".to_string()));
}

#[test]
fn refresh_interval_text_round_trip() {
    let mut o = ZDBIndexOptions::defaults(0, 1);
    for (setting, text) in [("immediate", "-1"), ("async", "-1"), ("-1", "-1"), ("1s", "1s"), ("", "")] {
        o.refresh_interval = Some(setting.to_string());
        assert_eq!(o.refresh_interval().as_str(), text);
    }
    assert_eq!(RefreshInterval::Immediate.as_str(), "-1");
    assert_eq!(RefreshInterval::ImmediateAsync.as_str(), "-1");
    assert_eq!(RefreshInterval::Background("5m".to_string()).as_str(), "5m");
}

#[test]
fn defaults_hold_documented_values() {
    let o = ZDBIndexOptions::defaults(3, 12);
    assert_eq!(o.replicas(), 3);
    assert_eq!(o.bulk_concurrency(), 12);
    assert_eq!(o.shards(), 5);
    assert_eq!(o.compression_level(), 1);
    assert_eq!(o.batch_size(), 8_388_608);
    assert_eq!(o.optimize_after(), 0);
    assert!(!o.llapi());
    assert!(o.url.is_none() && o.alias.is_none() && o.uuid.is_none());
}

#[test]
fn stored_options_come_back_unchanged() {
    let mut stored = ZDBIndexOptions::defaults(2, 8);
    stored.shards = 17;
    stored.llapi = true;
    stored.alias = Some("a".to_string());
    let indexrel = relation(1, "i", Some(stored));
    let o = ZDBIndexOptions::from(&indexrel, 0, default_bulk_concurrency());
    assert_eq!(o.shards(), 17);
    assert_eq!(o.replicas(), 2);
    assert_eq!(o.bulk_concurrency(), 8);
    assert!(o.llapi());
    assert_eq!(o.alias, Some("a".to_string()));
}

#[test]
fn default_names_render_extreme_oids() {
    let heaprel = Relation { oid: 0, ..heap() };
    let indexrel = Relation {
        oid: u32::MAX,
        database_oid: 9,
        namespace_oid: 10,
        ..index_without_options()
    };
    let o = ZDBIndexOptions::from(&indexrel, 0, default_bulk_concurrency());
    assert_eq!(o.uuid(&heaprel, &indexrel), "9.10.0.4294967295");
    assert_eq!(o.alias(&heaprel, &indexrel), "pgx_tests.public.test.idxtest-4294967295");
}

#[test]
fn bulk_concurrency_default_is_cpu_count() {
    let n = default_bulk_concurrency();
    assert!(n >= 1);
    assert_eq!(n, num_cpus::get() as i32);
}

#[test]
fn unset_index_uses_the_given_bulk_concurrency() {
    let o = ZDBIndexOptions::from(&index_without_options(), 2, 7);
    assert_eq!(o.bulk_concurrency(), 7);
    assert_eq!(o.replicas(), 2);
}

#[test]
fn default_uuids_of_different_indexes_differ() {
    let heaprel = heap();
    let a = Relation { oid: 12, ..index_without_options() };
    let b = Relation { oid: 112, ..index_without_options() };
    let c = Relation { namespace_oid: 22, ..index_without_options() };
    let o = ZDBIndexOptions::defaults(0, 1);
    let ua = o.uuid(&heaprel, &a);
    let ub = o.uuid(&heaprel, &b);
    let uc = o.uuid(&heaprel, &c);
    assert_ne!(ua, ub);
    assert_ne!(ua, uc);
    let parts: Vec<&str> = ua.split('.').collect();
    assert_eq!(parts, vec!["16384", "2200", "16385", "12"]);
}

#[test]
fn index_with_url_only_shares_other_defaults() {
    let replicas = 1;
    let bulk = default_bulk_concurrency();
    let mut stored = ZDBIndexOptions::defaults(replicas, bulk);
    stored.url = Some("http://localhost:19200/".to_string());
    stored.es_type_name = Some("doc".to_string());
    stored.refresh_interval = Some("-1".to_string());
    stored.translog_durability = Some("request".to_string());
    let o1 = ZDBIndexOptions::from(&relation(16390, "idx1", Some(stored)), replicas, bulk);
    let o2 = ZDBIndexOptions::from(&index_without_options(), replicas, bulk);
    assert_eq!(o1.compression_level(), o2.compression_level());
    assert_eq!(o1.shards(), o2.shards());
    assert_eq!(o1.replicas(), o2.replicas());
    assert_eq!(o1.bulk_concurrency(), o2.bulk_concurrency());
    assert_eq!(o1.batch_size(), o2.batch_size());
    assert_eq!(o1.optimize_after(), o2.optimize_after());
    assert_eq!(o1.llapi(), o2.llapi());
    assert_eq!(o1.es_type_name(), o2.es_type_name());
    assert_eq!(o1.refresh_interval(), o2.refresh_interval());
    assert_eq!(o1.translog_durability(), o2.translog_durability());
    assert_eq!(o1.refresh_interval(), RefreshInterval::Immediate);
    assert_eq!(o1.translog_durability(), "request");
}

#[test]
fn checked_durability_reads_back() {
    let mut o = ZDBIndexOptions::defaults(0, 1);
    assert_eq!(o.translog_durability(), "request");
    o.translog_durability = Some("async".to_string());
    assert_eq!(o.translog_durability(), "async");
}

#[test]
fn bulk_concurrency_for_counts() {
    assert_eq!(bulk_concurrency_for(1), 1);
    assert_eq!(bulk_concurrency_for(64), 64);
}
