//! The reloptions a ZomboDB index accepts: their names, descriptions,
//! kinds, defaults and bounds, in the order they are registered with
//! PostgreSQL.

use vstd::prelude::*;
use crate::validate::{is_durability, url_parse_outcome, url_verdict};
use crate::options::{
    setting, is_default_options, ZDBIndexOptions,
    DEFAULT_BATCH_SIZE, DEFAULT_COMPRESSION_LEVEL, DEFAULT_OPTIMIZE_AFTER, DEFAULT_REFRESH_INTERVAL,
    DEFAULT_SHARDS, DEFAULT_TRANSLOG_DURABILITY, DEFAULT_TYPE_NAME, DEFAULT_URL,
};

verus! {

/// The check PostgreSQL runs on a string option before storing it.
#[derive(PartialEq, Eq, Debug, Clone, Copy)]
pub enum StringCheck {
    /// `validate::validate_url`
    Url,
    /// `validate::validate_translog_durability`
    TranslogDurability,
}

/// What kind of value an option holds, with its default and bounds.
#[allow(inconsistent_fields)]
pub enum OptionKind {
    /// A string, with its default (if any) and the check it must pass.
    Text { default: Option<String>, check: Option<StringCheck> },
    /// An integer in `min..=max`.
    Int { default: i32, min: i32, max: i32 },
    /// A boolean.
    Bool { default: bool },
}

/// One reloption of a ZomboDB index.
pub struct RelOptionDef {
    pub name: String,
    pub description: String,
    pub kind: OptionKind,
}

/// The mathematical value of an [`OptionKind`].
#[allow(inconsistent_fields)]
pub enum OptionKindView {
    Text { default: Option<Seq<char>>, check: Option<StringCheck> },
    Int { default: i32, min: i32, max: i32 },
    Bool { default: bool },
}

/// The mathematical value of a [`RelOptionDef`].
pub struct RelOptionView {
    pub name: Seq<char>,
    pub description: Seq<char>,
    pub kind: OptionKindView,
}

impl View for OptionKind {
    type V = OptionKindView;

    open spec fn view(&self) -> OptionKindView {
        match self {
            OptionKind::Text { default, check } => OptionKindView::Text {
                default: match default {
                    Some(d) => Some(d@),
                    None => None,
                },
                check: *check,
            },
            OptionKind::Int { default, min, max } => OptionKindView::Int {
                default: *default,
                min: *min,
                max: *max,
            },
            OptionKind::Bool { default } => OptionKindView::Bool { default: *default },
        }
    }
}

impl View for RelOptionDef {
    type V = RelOptionView;

    open spec fn view(&self) -> RelOptionView {
        RelOptionView { name: self.name@, description: self.description@, kind: self.kind@ }
    }
}

/// The views of a list of option definitions.
pub open spec fn defs_view(defs: Seq<RelOptionDef>) -> Seq<RelOptionView> {
    defs.map_values(|d: RelOptionDef| d@)
}

/// The largest batch_size PostgreSQL accepts: half of `i32::MAX`, less one.
pub const MAX_BATCH_SIZE: i32 = 1073741822;

/// The largest shard or replica count PostgreSQL accepts.
pub const MAX_SHARDS: i32 = 32768;

/// The largest HTTP compression level.
pub const MAX_COMPRESSION_LEVEL: i32 = 9;

/// Every reloption of a ZomboDB index, in registration order, given the
/// server's `zdb.default_replicas` and the number of CPUs available,
/// which is both the default and the limit of bulk_concurrency.
pub open spec fn option_definitions(default_replicas: i32, cpus: i32) -> Seq<RelOptionView> {
    seq![
        RelOptionView {
            name: "url"@,
            description: "Server URL and port"@,
            kind: OptionKindView::Text { default: Some(DEFAULT_URL@), check: Some(StringCheck::Url) },
        },
        RelOptionView {
            name: "type_name"@,
            description: "What Elasticsearch index type name should ZDB use?  Default is 'doc'"@,
            kind: OptionKindView::Text { default: Some(DEFAULT_TYPE_NAME@), check: None },
        },
        RelOptionView {
            name: "refresh_interval"@,
            description: "Frequency in which Elasticsearch indexes are refreshed.  Related to ES' index.refresh_interval setting"@,
            kind: OptionKindView::Text { default: Some(DEFAULT_REFRESH_INTERVAL@), check: None },
        },
        RelOptionView {
            name: "shards"@,
            description: "The number of shards for the index"@,
            kind: OptionKindView::Int { default: DEFAULT_SHARDS, min: 1, max: MAX_SHARDS },
        },
        RelOptionView {
            name: "replicas"@,
            description: "The number of replicas for the index"@,
            kind: OptionKindView::Int { default: default_replicas, min: 0, max: MAX_SHARDS },
        },
        RelOptionView {
            name: "bulk_concurrency"@,
            description: "The maximum number of concurrent _bulk API requests"@,
            kind: OptionKindView::Int { default: cpus, min: 1, max: cpus },
        },
        RelOptionView {
            name: "batch_size"@,
            description: "The size in bytes of batch calls to the _bulk API"@,
            kind: OptionKindView::Int { default: DEFAULT_BATCH_SIZE, min: 1, max: MAX_BATCH_SIZE },
        },
        RelOptionView {
            name: "compression_level"@,
            description: "0-9 value to indicate the level of HTTP compression"@,
            kind: OptionKindView::Int {
                default: DEFAULT_COMPRESSION_LEVEL,
                min: 0,
                max: MAX_COMPRESSION_LEVEL,
            },
        },
        RelOptionView {
            name: "alias"@,
            description: "The Elasticsearch Alias to which this index should belong"@,
            kind: OptionKindView::Text { default: None, check: None },
        },
        RelOptionView {
            name: "uuid"@,
            description: "The Elasticsearch index name, as a UUID"@,
            kind: OptionKindView::Text { default: None, check: None },
        },
        RelOptionView {
            name: "translog_durability"@,
            description: "Elasticsearch index.translog.durability setting.  Defaults to 'request'"@,
            kind: OptionKindView::Text {
                default: Some(DEFAULT_TRANSLOG_DURABILITY@),
                check: Some(StringCheck::TranslogDurability),
            },
        },
        RelOptionView {
            name: "optimize_after"@,
            description: "After how many deleted docs should ZDB _optimize the ES index during VACUUM?"@,
            kind: OptionKindView::Int { default: DEFAULT_OPTIMIZE_AFTER, min: 0, max: i32::MAX },
        },
        RelOptionView {
            name: "llapi"@,
            description: "Will this index be used by ZomboDB's low-level API?"@,
            kind: OptionKindView::Bool { default: false },
        },
    ]
}

fn text_option(name: &str, description: &str, default: Option<&str>, check: Option<StringCheck>) -> (r: RelOptionDef)
    ensures
        r@ == (RelOptionView {
            name: name@,
            description: description@,
            kind: OptionKindView::Text {
                default: match default {
                    Some(d) => Some(d@),
                    None => None,
                },
                check,
            },
        }),
{
    let default = match default {
        Some(d) => Some(String::from_str(d)),
        None => None,
    };
    RelOptionDef {
        name: String::from_str(name),
        description: String::from_str(description),
        kind: OptionKind::Text { default, check },
    }
}

fn int_option(name: &str, description: &str, default: i32, min: i32, max: i32) -> (r: RelOptionDef)
    ensures
        r@ == (RelOptionView {
            name: name@,
            description: description@,
            kind: OptionKindView::Int { default, min, max },
        }),
{
    RelOptionDef {
        name: String::from_str(name),
        description: String::from_str(description),
        kind: OptionKind::Int { default, min, max },
    }
}

fn bool_option(name: &str, description: &str, default: bool) -> (r: RelOptionDef)
    ensures
        r@ == (RelOptionView {
            name: name@,
            description: description@,
            kind: OptionKindView::Bool { default },
        }),
{
    RelOptionDef {
        name: String::from_str(name),
        description: String::from_str(description),
        kind: OptionKind::Bool { default },
    }
}

/// The reloptions to register with PostgreSQL, in order; see
/// [`option_definitions`].
pub fn reloption_definitions(default_replicas: i32, cpus: i32) -> (r: Vec<RelOptionDef>)
    ensures
        defs_view(r@) == option_definitions(default_replicas, cpus),
{
    let mut v: Vec<RelOptionDef> = Vec::new();
    v.push(text_option("url", "Server URL and port", Some(DEFAULT_URL), Some(StringCheck::Url)));
    v.push(
        text_option(
            "type_name",
            "What Elasticsearch index type name should ZDB use?  Default is 'doc'",
            Some(DEFAULT_TYPE_NAME),
            None,
        ),
    );
    v.push(
        text_option(
            "refresh_interval",
            "Frequency in which Elasticsearch indexes are refreshed.  Related to ES' index.refresh_interval setting",
            Some(DEFAULT_REFRESH_INTERVAL),
            None,
        ),
    );
    v.push(int_option("shards", "The number of shards for the index", DEFAULT_SHARDS, 1, MAX_SHARDS));
    v.push(
        int_option("replicas", "The number of replicas for the index", default_replicas, 0, MAX_SHARDS),
    );
    v.push(
        int_option(
            "bulk_concurrency",
            "The maximum number of concurrent _bulk API requests",
            cpus,
            1,
            cpus,
        ),
    );
    v.push(
        int_option(
            "batch_size",
            "The size in bytes of batch calls to the _bulk API",
            DEFAULT_BATCH_SIZE,
            1,
            MAX_BATCH_SIZE,
        ),
    );
    v.push(
        int_option(
            "compression_level",
            "0-9 value to indicate the level of HTTP compression",
            DEFAULT_COMPRESSION_LEVEL,
            0,
            MAX_COMPRESSION_LEVEL,
        ),
    );
    v.push(
        text_option(
            "alias",
            "The Elasticsearch Alias to which this index should belong",
            None,
            None,
        ),
    );
    v.push(text_option("uuid", "The Elasticsearch index name, as a UUID", None, None));
    v.push(
        text_option(
            "translog_durability",
            "Elasticsearch index.translog.durability setting.  Defaults to 'request'",
            Some(DEFAULT_TRANSLOG_DURABILITY),
            Some(StringCheck::TranslogDurability),
        ),
    );
    v.push(
        int_option(
            "optimize_after",
            "After how many deleted docs should ZDB _optimize the ES index during VACUUM?",
            DEFAULT_OPTIMIZE_AFTER,
            0,
            i32::MAX,
        ),
    );
    v.push(
        bool_option("llapi", "Will this index be used by ZomboDB's low-level API?", false),
    );
    assert(defs_view(v@) =~= option_definitions(default_replicas, cpus));
    v
}


/// The reloptions of a ZomboDB index, as registered with PostgreSQL, in
/// order: url (default "default", checked as a url), type_name ("doc"),
/// refresh_interval ("-1"), shards (5 in 1..=32768), replicas (the server
/// default in 0..=32768), bulk_concurrency (the CPU count in 1..=CPUs),
/// batch_size (8 MiB in 1..=1073741822), compression_level (1 in 0..=9),
/// alias and uuid (no default, unchecked), translog_durability ("request",
/// checked as a durability), optimize_after (0 in 0..=i32::MAX) and llapi
/// (off).
pub proof fn law_registered_options(default_replicas: i32, cpus: i32)
    ensures
        ({
            let defs = option_definitions(default_replicas, cpus);
            &&& defs.len() == 13
            &&& defs[0].name == "url"@
            &&& defs[0].description == "Server URL and port"@
            &&& defs[0].kind == (OptionKindView::Text { default: Some("default"@), check: Some(StringCheck::Url) })
            &&& defs[1].name == "type_name"@
            &&& defs[1].description == "What Elasticsearch index type name should ZDB use?  Default is 'doc'"@
            &&& defs[1].kind == (OptionKindView::Text { default: Some("doc"@), check: None })
            &&& defs[2].name == "refresh_interval"@
            &&& defs[2].description == "Frequency in which Elasticsearch indexes are refreshed.  Related to ES' index.refresh_interval setting"@
            &&& defs[2].kind == (OptionKindView::Text { default: Some("-1"@), check: None })
            &&& defs[3].name == "shards"@
            &&& defs[3].description == "The number of shards for the index"@
            &&& defs[3].kind == (OptionKindView::Int { default: 5, min: 1, max: 32768 })
            &&& defs[4].name == "replicas"@
            &&& defs[4].description == "The number of replicas for the index"@
            &&& defs[4].kind == (OptionKindView::Int { default: default_replicas, min: 0, max: 32768 })
            &&& defs[5].name == "bulk_concurrency"@
            &&& defs[5].description == "The maximum number of concurrent _bulk API requests"@
            &&& defs[5].kind == (OptionKindView::Int { default: cpus, min: 1, max: cpus })
            &&& defs[6].name == "batch_size"@
            &&& defs[6].description == "The size in bytes of batch calls to the _bulk API"@
            &&& defs[6].kind == (OptionKindView::Int { default: 8388608, min: 1, max: 1073741822 })
            &&& defs[7].name == "compression_level"@
            &&& defs[7].description == "0-9 value to indicate the level of HTTP compression"@
            &&& defs[7].kind == (OptionKindView::Int { default: 1, min: 0, max: 9 })
            &&& defs[8].name == "alias"@
            &&& defs[8].description == "The Elasticsearch Alias to which this index should belong"@
            &&& defs[8].kind == (OptionKindView::Text { default: None, check: None })
            &&& defs[9].name == "uuid"@
            &&& defs[9].description == "The Elasticsearch index name, as a UUID"@
            &&& defs[9].kind == (OptionKindView::Text { default: None, check: None })
            &&& defs[10].name == "translog_durability"@
            &&& defs[10].description == "Elasticsearch index.translog.durability setting.  Defaults to 'request'"@
            &&& defs[10].kind == (OptionKindView::Text { default: Some("request"@), check: Some(StringCheck::TranslogDurability) })
            &&& defs[11].name == "optimize_after"@
            &&& defs[11].description == "After how many deleted docs should ZDB _optimize the ES index during VACUUM?"@
            &&& defs[11].kind == (OptionKindView::Int { default: 0, min: 0, max: 2147483647 })
            &&& defs[12].name == "llapi"@
            &&& defs[12].description == "Will this index be used by ZomboDB's low-level API?"@
            &&& defs[12].kind == (OptionKindView::Bool { default: false })
        }),
{
}

/// The view of a definition shows its name, description, default and
/// bounds or check as they are; a list of definitions is seen element by
/// element.
pub proof fn law_definition_views(d: RelOptionDef, defs: Seq<RelOptionDef>)
    ensures
        d@.name == d.name@,
        d@.description == d.description@,
        d.kind matches OptionKind::Text { default: Some(t), check } ==> d@.kind == (OptionKindView::Text {
            default: Some(t@),
            check,
        }),
        d.kind matches OptionKind::Text { default: None, check } ==> d@.kind == (OptionKindView::Text {
            default: None,
            check,
        }),
        d.kind matches OptionKind::Int { default, min, max } ==> d@.kind == (OptionKindView::Int {
            default,
            min,
            max,
        }),
        d.kind matches OptionKind::Bool { default } ==> d@.kind == (OptionKindView::Bool { default }),
        defs_view(defs).len() == defs.len(),
        forall|i: int| 0 <= i < defs.len() ==> #[trigger] defs_view(defs)[i] == defs[i]@,
{
}

/// A value an option can take, as PostgreSQL reports it.
pub enum OptionValue {
    /// A string option's value, `None` for an unset option without default.
    Text(Option<Seq<char>>),
    Int(i32),
    Bool(bool),
}

/// The value of an option kind's default.
pub open spec fn default_value(kind: OptionKindView) -> OptionValue {
    match kind {
        OptionKindView::Text { default, .. } => OptionValue::Text(default),
        OptionKindView::Int { default, .. } => OptionValue::Int(default),
        OptionKindView::Bool { default } => OptionValue::Bool(default),
    }
}

/// The view of an optional string.
pub open spec fn opt_view(value: Option<String>) -> Option<Seq<char>> {
    match value {
        Some(v) => Some(v@),
        None => None,
    }
}

/// What the options `o` report for the option `name`: a string option with
/// a default reports the setting its accessor falls back to, one without a
/// default reports what is stored; integer and boolean options report the
/// stored value. `None` for a name that is no option.
pub open spec fn reported_value(o: ZDBIndexOptions, name: Seq<char>) -> Option<OptionValue> {
    if name == "url"@ {
        Some(OptionValue::Text(Some(setting(o.url, DEFAULT_URL@))))
    } else if name == "type_name"@ {
        Some(OptionValue::Text(Some(setting(o.es_type_name, DEFAULT_TYPE_NAME@))))
    } else if name == "refresh_interval"@ {
        Some(OptionValue::Text(Some(setting(o.refresh_interval, DEFAULT_REFRESH_INTERVAL@))))
    } else if name == "shards"@ {
        Some(OptionValue::Int(o.shards))
    } else if name == "replicas"@ {
        Some(OptionValue::Int(o.replicas))
    } else if name == "bulk_concurrency"@ {
        Some(OptionValue::Int(o.bulk_concurrency))
    } else if name == "batch_size"@ {
        Some(OptionValue::Int(o.batch_size))
    } else if name == "compression_level"@ {
        Some(OptionValue::Int(o.compression_level))
    } else if name == "alias"@ {
        Some(OptionValue::Text(opt_view(o.alias)))
    } else if name == "uuid"@ {
        Some(OptionValue::Text(opt_view(o.uuid)))
    } else if name == "translog_durability"@ {
        Some(OptionValue::Text(Some(setting(o.translog_durability, DEFAULT_TRANSLOG_DURABILITY@))))
    } else if name == "optimize_after"@ {
        Some(OptionValue::Int(o.optimize_after))
    } else if name == "llapi"@ {
        Some(OptionValue::Bool(o.llapi))
    } else {
        None
    }
}

/// Whether a string value passes a check, given what the url parser makes
/// of it.
pub open spec fn passes_check(check: StringCheck, value: Seq<char>) -> bool {
    match check {
        StringCheck::Url => url_verdict(value, url_parse_outcome(value)) is Ok,
        StringCheck::TranslogDurability => is_durability(value),
    }
}

/// Every integer option's default lies within its bounds, provided the
/// server's default replica count is a valid replica count and at least
/// one CPU is available.
pub proof fn lemma_int_defaults_within_bounds(default_replicas: i32, cpus: i32)
    requires
        0 <= default_replicas <= MAX_SHARDS,
        cpus >= 1,
    ensures
        forall|i: int|
            0 <= i < option_definitions(default_replicas, cpus).len() ==> match #[trigger] option_definitions(
                default_replicas,
                cpus,
            )[i].kind {
                OptionKindView::Int { default, min, max } => min <= default <= max,
                _ => true,
            },
{
}

/// The default of every checked string option passes its own check.
pub proof fn lemma_text_defaults_pass_checks(default_replicas: i32, cpus: i32)
    ensures
        forall|i: int|
            0 <= i < option_definitions(default_replicas, cpus).len() ==> match #[trigger] option_definitions(
                default_replicas,
                cpus,
            )[i].kind {
                OptionKindView::Text { default: Some(d), check: Some(c) } => passes_check(c, d),
                _ => true,
            },
{
}

/// Whether `o` holds, for every option whose name is not in `given`, a
/// value that reads as the registered default: what PostgreSQL stores for
/// an index created with exactly the options named in `given`.
pub open spec fn defaults_except(o: ZDBIndexOptions, default_replicas: i32, cpus: i32, given: Set<Seq<char>>) -> bool {
    &&& !given.contains("url"@) ==> setting(o.url, DEFAULT_URL@) == DEFAULT_URL@
    &&& !given.contains("type_name"@) ==> setting(o.es_type_name, DEFAULT_TYPE_NAME@) == DEFAULT_TYPE_NAME@
    &&& !given.contains("refresh_interval"@) ==> setting(o.refresh_interval, DEFAULT_REFRESH_INTERVAL@)
        == DEFAULT_REFRESH_INTERVAL@
    &&& !given.contains("shards"@) ==> o.shards == DEFAULT_SHARDS
    &&& !given.contains("replicas"@) ==> o.replicas == default_replicas
    &&& !given.contains("bulk_concurrency"@) ==> o.bulk_concurrency == cpus
    &&& !given.contains("batch_size"@) ==> o.batch_size == DEFAULT_BATCH_SIZE
    &&& !given.contains("compression_level"@) ==> o.compression_level == DEFAULT_COMPRESSION_LEVEL
    &&& !given.contains("alias"@) ==> o.alias is None
    &&& !given.contains("uuid"@) ==> o.uuid is None
    &&& !given.contains("translog_durability"@) ==> setting(o.translog_durability, DEFAULT_TRANSLOG_DURABILITY@)
        == DEFAULT_TRANSLOG_DURABILITY@
    &&& !given.contains("optimize_after"@) ==> o.optimize_after == DEFAULT_OPTIMIZE_AFTER
    &&& !given.contains("llapi"@) ==> !o.llapi
}

/// Options that hold the registered default for every option not named in
/// `given` report, for every such option, exactly that default: two indexes
/// agree on every option neither of them was created with.
pub proof fn lemma_unset_options_report_registered_defaults(
    o: ZDBIndexOptions,
    default_replicas: i32,
    cpus: i32,
    given: Set<Seq<char>>,
)
    requires
        defaults_except(o, default_replicas, cpus, given),
    ensures
        forall|i: int|
            0 <= i < option_definitions(default_replicas, cpus).len() && !given.contains(
                #[trigger] option_definitions(default_replicas, cpus)[i].name,
            ) ==> reported_value(o, option_definitions(default_replicas, cpus)[i].name) == Some(
                default_value(option_definitions(default_replicas, cpus)[i].kind),
            ),
{
    reveal_strlit("url");
    reveal_strlit("type_name");
    reveal_strlit("refresh_interval");
    reveal_strlit("shards");
    reveal_strlit("replicas");
    reveal_strlit("bulk_concurrency");
    reveal_strlit("batch_size");
    reveal_strlit("compression_level");
    reveal_strlit("alias");
    reveal_strlit("uuid");
    reveal_strlit("translog_durability");
    reveal_strlit("optimize_after");
    reveal_strlit("llapi");
    // names of equal length differ in their first character
    assert("url"@[0] == 'u');
    assert("type_name"@[0] == 't');
    assert("refresh_interval"@[0] == 'r');
    assert("shards"@[0] == 's');
    assert("replicas"@[0] == 'r');
    assert("bulk_concurrency"@[0] == 'b');
    assert("batch_size"@[0] == 'b');
    assert("compression_level"@[0] == 'c');
    assert("alias"@[0] == 'a');
    assert("uuid"@[0] == 'u');
    assert("translog_durability"@[0] == 't');
    assert("optimize_after"@[0] == 'o');
    assert("llapi"@[0] == 'l');
    // and names of different length differ
    assert("url"@.len() == 3);
    assert("type_name"@.len() == 9);
    assert("refresh_interval"@.len() == 16);
    assert("shards"@.len() == 6);
    assert("replicas"@.len() == 8);
    assert("bulk_concurrency"@.len() == 16);
    assert("batch_size"@.len() == 10);
    assert("compression_level"@.len() == 17);
    assert("alias"@.len() == 5);
    assert("uuid"@.len() == 4);
    assert("translog_durability"@.len() == 19);
    assert("optimize_after"@.len() == 14);
    assert("llapi"@.len() == 5);
}

/// An index created without options reports, for every registered option,
/// exactly the default registered with PostgreSQL.
pub proof fn lemma_defaults_report_registered_defaults(o: ZDBIndexOptions, default_replicas: i32, cpus: i32)
    requires
        is_default_options(o, default_replicas, cpus),
    ensures
        forall|i: int|
            0 <= i < option_definitions(default_replicas, cpus).len() ==> reported_value(
                o,
                #[trigger] option_definitions(default_replicas, cpus)[i].name,
            ) == Some(default_value(option_definitions(default_replicas, cpus)[i].kind)),
{
    let given = Set::<Seq<char>>::empty();
    lemma_unset_options_report_registered_defaults(o, default_replicas, cpus, given);
    assert forall|i: int| 0 <= i < option_definitions(default_replicas, cpus).len() implies reported_value(
        o,
        #[trigger] option_definitions(default_replicas, cpus)[i].name,
    ) == Some(default_value(option_definitions(default_replicas, cpus)[i].kind)) by {
        assert(!given.contains(option_definitions(default_replicas, cpus)[i].name));
    }
}

} // verus!
