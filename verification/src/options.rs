//! The settings of one ZomboDB index, as PostgreSQL stores them with the
//! index, and what each of them resolves to when it was left unset.

use vstd::prelude::*;
use crate::text::{decimal, lemma_decimal_digits, lemma_decimal_injective, push_decimal, str_eq};

verus! {

/// Number of bytes sent to the `_bulk` API per batch, unless set.
pub const DEFAULT_BATCH_SIZE: i32 = 8 * 1024 * 1024;

/// HTTP compression level, unless set.
pub const DEFAULT_COMPRESSION_LEVEL: i32 = 1;

/// Number of shards of the Elasticsearch index, unless set.
pub const DEFAULT_SHARDS: i32 = 5;

/// Number of deleted documents after which VACUUM optimizes, unless set.
pub const DEFAULT_OPTIMIZE_AFTER: i32 = 0;

/// The url setting that stands for the server-wide default url.
pub const DEFAULT_URL: &'static str = "default";

/// The Elasticsearch type name, unless set.
pub const DEFAULT_TYPE_NAME: &'static str = "doc";

/// The refresh interval, unless set.
pub const DEFAULT_REFRESH_INTERVAL: &'static str = "-1";

/// The translog durability, unless set.
pub const DEFAULT_TRANSLOG_DURABILITY: &'static str = "request";

/// When Elasticsearch indexes get refreshed.
#[derive(Eq, PartialEq, Debug, Clone)]
pub enum RefreshInterval {
    /// ZomboDB refreshes the index itself at the end of each statement.
    Immediate,
    /// ZomboDB asks for a refresh without waiting for it.
    ImmediateAsync,
    /// Elasticsearch refreshes in the background at this interval.
    Background(String),
}

/// The mathematical value of a [`RefreshInterval`].
pub enum RefreshIntervalView {
    Immediate,
    ImmediateAsync,
    Background(Seq<char>),
}

impl View for RefreshInterval {
    type V = RefreshIntervalView;

    open spec fn view(&self) -> RefreshIntervalView {
        match self {
            RefreshInterval::Immediate => RefreshIntervalView::Immediate,
            RefreshInterval::ImmediateAsync => RefreshIntervalView::ImmediateAsync,
            RefreshInterval::Background(s) => RefreshIntervalView::Background(s@),
        }
    }
}

/// The text that stands for a refresh interval in Elasticsearch's settings.
pub open spec fn interval_text(r: RefreshIntervalView) -> Seq<char> {
    match r {
        RefreshIntervalView::Immediate => "-1"@,
        RefreshIntervalView::ImmediateAsync => "-1"@,
        RefreshIntervalView::Background(s) => s,
    }
}

/// How a refresh_interval setting reads: `-1` and `immediate` mean an
/// immediate refresh, `async` an asynchronous one, anything else is an
/// Elasticsearch interval.
pub open spec fn parse_interval(s: Seq<char>) -> RefreshIntervalView {
    if s == "-1"@ || s == "immediate"@ {
        RefreshIntervalView::Immediate
    } else if s == "async"@ {
        RefreshIntervalView::ImmediateAsync
    } else {
        RefreshIntervalView::Background(s)
    }
}

/// Reading a refresh_interval setting and writing it back out for
/// Elasticsearch gives the setting itself, except that the keywords
/// "immediate" and "async" come out as "-1" (Elasticsearch does not refresh
/// on its own; ZomboDB does).
pub proof fn lemma_interval_text_of_setting(s: Seq<char>)
    ensures
        interval_text(parse_interval(s)) == (if s == "immediate"@ || s == "async"@ {
            "-1"@
        } else {
            s
        }),
{
}

impl RefreshInterval {
    /// The text of this interval for Elasticsearch's index settings.
    pub fn as_str(&self) -> (r: &str)
        ensures
            r@ == interval_text(self@),
    {
        match self {
            RefreshInterval::Immediate => "-1",
            RefreshInterval::ImmediateAsync => "-1",
            RefreshInterval::Background(s) => s.as_str(),
        }
    }
}


/// The value a string setting resolves to: what was set, else `default`.
pub open spec fn setting(value: Option<String>, default: Seq<char>) -> Seq<char> {
    match value {
        Some(s) => s@,
        None => default,
    }
}

/// The settings of one index. A string setting is `None` when the index
/// was created without it; the integer settings always hold a value.
pub struct ZDBIndexOptions {
    /// Elasticsearch url, or "default" for the server-wide one.
    pub url: Option<String>,
    /// Elasticsearch type name.
    pub es_type_name: Option<String>,
    /// Refresh interval, see [`RefreshInterval`].
    pub refresh_interval: Option<String>,
    /// Elasticsearch alias of the index.
    pub alias: Option<String>,
    /// Elasticsearch index name.
    pub uuid: Option<String>,
    /// Elasticsearch `index.translog.durability`.
    pub translog_durability: Option<String>,
    /// Deleted documents after which VACUUM optimizes the index.
    pub optimize_after: i32,
    /// HTTP compression level.
    pub compression_level: i32,
    /// Number of shards.
    pub shards: i32,
    /// Number of replicas.
    pub replicas: i32,
    /// Maximum number of concurrent `_bulk` requests.
    pub bulk_concurrency: i32,
    /// Bytes per `_bulk` request.
    pub batch_size: i32,
    /// Whether the index serves ZomboDB's low-level API.
    pub llapi: bool,
}

/// A relation as the option logic sees it: its identity, its names, the
/// database it lives in, whether it is an index, and the ZomboDB options
/// stored with it (`None` when it was created without any).
pub struct Relation {
    pub oid: u32,
    pub name: String,
    pub namespace_oid: u32,
    pub namespace_name: String,
    pub database_oid: u32,
    pub database_name: String,
    pub is_index: bool,
    pub options: Option<ZDBIndexOptions>,
}

/// The options of an index created without any: every string setting is
/// unset and every integer setting has its default.
pub open spec fn is_default_options(o: ZDBIndexOptions, default_replicas: i32, bulk_concurrency: i32) -> bool {
    &&& o.url is None
    &&& o.es_type_name is None
    &&& o.refresh_interval is None
    &&& o.alias is None
    &&& o.uuid is None
    &&& o.translog_durability is None
    &&& o.optimize_after == DEFAULT_OPTIMIZE_AFTER
    &&& o.compression_level == DEFAULT_COMPRESSION_LEVEL
    &&& o.shards == DEFAULT_SHARDS
    &&& o.replicas == default_replicas
    &&& o.bulk_concurrency == bulk_concurrency
    &&& o.batch_size == DEFAULT_BATCH_SIZE
    &&& !o.llapi
}

/// The alias an index gets unless one was set:
/// `database.schema.table.index-oid`.
pub open spec fn default_alias(heaprel: Relation, indexrel: Relation) -> Seq<char> {
    indexrel.database_name@ + "."@ + indexrel.namespace_name@ + "."@ + heaprel.name@ + "."@
        + indexrel.name@ + "-"@ + decimal(indexrel.oid as nat)
}

/// The Elasticsearch index name an index gets unless one was set:
/// `database-oid.schema-oid.table-oid.index-oid`.
pub open spec fn default_uuid(heaprel: Relation, indexrel: Relation) -> Seq<char> {
    decimal(indexrel.database_oid as nat) + "."@ + decimal(indexrel.namespace_oid as nat) + "."@
        + decimal(heaprel.oid as nat) + "."@ + decimal(indexrel.oid as nat)
}

/// Whether `s` holds no '.'.
pub open spec fn no_dot(s: Seq<char>) -> bool {
    forall|i: int| 0 <= i < s.len() ==> s[i] != '.'
}

proof fn lemma_decimal_no_dot(n: nat)
    ensures
        no_dot(decimal(n)),
{
    lemma_decimal_digits(n);
}

/// Splitting at the first '.' undoes joining two strings with a '.', when
/// the first of them holds none.
proof fn lemma_split_at_dot(a1: Seq<char>, b1: Seq<char>, a2: Seq<char>, b2: Seq<char>)
    requires
        no_dot(a1),
        no_dot(a2),
        a1 + seq!['.'] + b1 == a2 + seq!['.'] + b2,
    ensures
        a1 == a2,
        b1 == b2,
{
    let s1 = a1 + seq!['.'] + b1;
    let s2 = a2 + seq!['.'] + b2;
    if a1.len() < a2.len() {
        assert(s1[a1.len() as int] == '.');
        assert(s2[a1.len() as int] == a2[a1.len() as int]);
    } else if a2.len() < a1.len() {
        assert(s2[a2.len() as int] == '.');
        assert(s1[a2.len() as int] == a1[a2.len() as int]);
    }
    assert(a1 =~= s1.subrange(0, a1.len() as int));
    assert(a2 =~= s2.subrange(0, a2.len() as int));
    assert(b1 =~= s1.subrange(a1.len() as int + 1, s1.len() as int));
    assert(b2 =~= s2.subrange(a2.len() as int + 1, s2.len() as int));
}

/// The default Elasticsearch index name determines the four oids it was
/// made of: two indexes whose default names agree live in the same
/// database and schema and belong to the same table, and are the same index.
pub proof fn lemma_default_uuid_determines_oids(heap1: Relation, index1: Relation, heap2: Relation, index2: Relation)
    requires
        default_uuid(heap1, index1) == default_uuid(heap2, index2),
    ensures
        index1.database_oid == index2.database_oid,
        index1.namespace_oid == index2.namespace_oid,
        heap1.oid == heap2.oid,
        index1.oid == index2.oid,
{
    reveal_strlit(".");
    let dot = seq!['.'];
    let a1 = decimal(index1.database_oid as nat);
    let b1 = decimal(index1.namespace_oid as nat);
    let c1 = decimal(heap1.oid as nat);
    let d1 = decimal(index1.oid as nat);
    let a2 = decimal(index2.database_oid as nat);
    let b2 = decimal(index2.namespace_oid as nat);
    let c2 = decimal(heap2.oid as nat);
    let d2 = decimal(index2.oid as nat);
    lemma_decimal_no_dot(index1.database_oid as nat);
    lemma_decimal_no_dot(index1.namespace_oid as nat);
    lemma_decimal_no_dot(heap1.oid as nat);
    lemma_decimal_no_dot(index2.database_oid as nat);
    lemma_decimal_no_dot(index2.namespace_oid as nat);
    lemma_decimal_no_dot(heap2.oid as nat);
    assert(default_uuid(heap1, index1) =~= a1 + dot + (b1 + dot + (c1 + dot + d1)));
    assert(default_uuid(heap2, index2) =~= a2 + dot + (b2 + dot + (c2 + dot + d2)));
    lemma_split_at_dot(a1, b1 + dot + (c1 + dot + d1), a2, b2 + dot + (c2 + dot + d2));
    lemma_split_at_dot(b1, c1 + dot + d1, b2, c2 + dot + d2);
    lemma_split_at_dot(c1, d1, c2, d2);
    lemma_decimal_injective(index1.database_oid as nat, index2.database_oid as nat);
    lemma_decimal_injective(index1.namespace_oid as nat, index2.namespace_oid as nat);
    lemma_decimal_injective(heap1.oid as nat, heap2.oid as nat);
    lemma_decimal_injective(index1.oid as nat, index2.oid as nat);
}

/// The url an index talks to: its own, unless that is unset or "default".
pub open spec fn effective_url(o: ZDBIndexOptions, default_elasticsearch_url: Option<String>) -> Seq<char> {
    if setting(o.url, DEFAULT_URL@) == DEFAULT_URL@ {
        default_elasticsearch_url.unwrap()@
    } else {
        setting(o.url, DEFAULT_URL@)
    }
}

fn copy_setting(value: &Option<String>) -> (r: Option<String>)
    ensures
        r == *value,
{
    match value {
        Some(s) => Some(s.clone()),
        None => None,
    }
}

/// The setting `value`, or `default` when it is unset.
fn get_str(value: &Option<String>, default: &str) -> (r: String)
    ensures
        r@ == setting(*value, default@),
{
    match value {
        Some(s) => s.clone(),
        None => default.to_owned(),
    }
}

impl Clone for ZDBIndexOptions {
    fn clone(&self) -> (r: Self)
        ensures
            r == *self,
    {
        ZDBIndexOptions {
            url: copy_setting(&self.url),
            es_type_name: copy_setting(&self.es_type_name),
            refresh_interval: copy_setting(&self.refresh_interval),
            alias: copy_setting(&self.alias),
            uuid: copy_setting(&self.uuid),
            translog_durability: copy_setting(&self.translog_durability),
            optimize_after: self.optimize_after,
            compression_level: self.compression_level,
            shards: self.shards,
            replicas: self.replicas,
            bulk_concurrency: self.bulk_concurrency,
            batch_size: self.batch_size,
            llapi: self.llapi,
        }
    }
}


/// How a refresh_interval setting reads: "-1" and "immediate" (exactly)
/// are an immediate refresh, "async" (exactly) an asynchronous one, and
/// every other text is an Elasticsearch interval carrying that very text;
/// an immediate or asynchronous refresh is written out as "-1".
pub proof fn law_refresh_interval(s: Seq<char>)
    ensures
        (parse_interval(s) is Immediate) <==> (s == "-1"@ || s == "immediate"@),
        (parse_interval(s) is ImmediateAsync) <==> s == "async"@,
        parse_interval(s) is Background ==> parse_interval(s) == RefreshIntervalView::Background(s),
        interval_text(RefreshIntervalView::Immediate) == "-1"@,
        interval_text(RefreshIntervalView::ImmediateAsync) == "-1"@,
        interval_text(RefreshIntervalView::Background(s)) == s,
{
    reveal_strlit("async");
    reveal_strlit("-1");
    reveal_strlit("immediate");
    assert("async"@.len() == 5 && "-1"@.len() == 2 && "immediate"@.len() == 9);
}

/// A refresh interval is seen as what it is; a background interval with
/// the text it carries.
pub proof fn law_refresh_interval_view(text: String)
    ensures
        RefreshInterval::Immediate@ == RefreshIntervalView::Immediate,
        RefreshInterval::ImmediateAsync@ == RefreshIntervalView::ImmediateAsync,
        RefreshInterval::Background(text)@ == RefreshIntervalView::Background(text@),
{
}

/// A string setting reads as what was stored, or as the default when
/// nothing was; the defaults are "default", "doc", "-1" and "request".
pub proof fn law_setting_fallbacks(stored: String, default: Seq<char>)
    ensures
        setting(Some(stored), default) == stored@,
        setting(None, default) == default,
        DEFAULT_URL@ == "default"@,
        DEFAULT_TYPE_NAME@ == "doc"@,
        DEFAULT_REFRESH_INTERVAL@ == "-1"@,
        DEFAULT_TRANSLOG_DURABILITY@ == "request"@,
{
}

/// The options of an index created without any leave every string unset
/// and hold optimize_after 0, compression level 1, 5 shards, the given
/// replica count and bulk concurrency, batch size 8 MiB and llapi off.
pub proof fn law_default_options(o: ZDBIndexOptions, default_replicas: i32, bulk_concurrency: i32)
    requires
        is_default_options(o, default_replicas, bulk_concurrency),
    ensures
        o.url is None && o.es_type_name is None && o.refresh_interval is None,
        o.alias is None && o.uuid is None && o.translog_durability is None,
        o.optimize_after == 0,
        o.compression_level == 1,
        o.shards == 5,
        o.replicas == default_replicas,
        o.bulk_concurrency == bulk_concurrency,
        o.batch_size == 8388608,
        !o.llapi,
{
}

/// An index's own url is its url, whatever the server-wide one is, unless
/// it is the word "default"; an unset url or "default" means the
/// server-wide url.
pub proof fn law_effective_url(o: ZDBIndexOptions, default_elasticsearch_url: Option<String>, u: String)
    ensures
        o.url == Some(u) && u@ != "default"@ ==> effective_url(o, default_elasticsearch_url) == u@,
        (o.url is None || (o.url == Some(u) && u@ == "default"@)) ==> effective_url(
            o,
            default_elasticsearch_url,
        ) == default_elasticsearch_url.unwrap()@,
{
}

/// The default alias is the database name, the schema name, the table name
/// and the index name joined by '.', then '-' and the index oid in decimal:
/// nothing is cut, and its length is the parts' lengths plus four.
pub proof fn law_default_alias(heaprel: Relation, indexrel: Relation)
    ensures
        default_alias(heaprel, indexrel) == indexrel.database_name@ + seq!['.'] + indexrel.namespace_name@
            + seq!['.'] + heaprel.name@ + seq!['.'] + indexrel.name@ + seq!['-'] + decimal(indexrel.oid as nat),
        default_alias(heaprel, indexrel).len() == indexrel.database_name@.len()
            + indexrel.namespace_name@.len() + heaprel.name@.len() + indexrel.name@.len() + decimal(
            indexrel.oid as nat,
        ).len() + 4,
{
    reveal_strlit(".");
    reveal_strlit("-");
    assert(default_alias(heaprel, indexrel) =~= indexrel.database_name@ + seq!['.'] + indexrel.namespace_name@
        + seq!['.'] + heaprel.name@ + seq!['.'] + indexrel.name@ + seq!['-'] + decimal(indexrel.oid as nat));
}

/// The default Elasticsearch index name is the database oid, the schema
/// oid, the table oid and the index oid, in decimal, joined by '.'.
pub proof fn law_default_uuid(heaprel: Relation, indexrel: Relation)
    ensures
        default_uuid(heaprel, indexrel) == decimal(indexrel.database_oid as nat) + seq!['.'] + decimal(
            indexrel.namespace_oid as nat,
        ) + seq!['.'] + decimal(heaprel.oid as nat) + seq!['.'] + decimal(indexrel.oid as nat),
{
    reveal_strlit(".");
    assert(default_uuid(heaprel, indexrel) =~= decimal(indexrel.database_oid as nat) + seq!['.'] + decimal(
        indexrel.namespace_oid as nat,
    ) + seq!['.'] + decimal(heaprel.oid as nat) + seq!['.'] + decimal(indexrel.oid as nat));
}

/// `num_cpus::get`: the number of CPUs this process may run on. Its
/// documentation promises at least one; which number comes back depends on
/// the machine, so nothing more is claimed.
#[verifier::external_body]
fn available_cpus() -> (n: usize)
    ensures
        n >= 1,
{
    num_cpus::get()
}

/// A CPU count as the `i32` that PostgreSQL's integer options hold.
pub open spec fn cpus_as_option(cpus: usize) -> i32 {
    cpus as i32
}

/// The bulk_concurrency setting for a CPU count: the count as an `i32`
/// (truncated, as a cast does, should it exceed `i32::MAX`).
pub fn bulk_concurrency_for(cpus: usize) -> (r: i32)
    ensures
        r == cpus_as_option(cpus),
{
    cpus as i32
}

/// A CPU count becomes the bulk concurrency it casts to as an `i32`: the
/// count itself when it fits.
pub proof fn law_cpus_as_option(cpus: usize)
    ensures
        cpus_as_option(cpus) == cpus as i32,
        cpus <= i32::MAX ==> cpus_as_option(cpus) == cpus,
{
}

/// The default for bulk_concurrency: the number of CPUs available to this
/// process, as an `i32`.
pub fn default_bulk_concurrency() -> (r: i32)
    ensures
        exists|cpus: usize| cpus >= 1 && r == #[trigger] cpus_as_option(cpus),
{
    bulk_concurrency_for(available_cpus())
}

/// `database.schema.table.index-oid`, from the relations' names.
fn build_alias(heaprel: &Relation, indexrel: &Relation) -> (r: String)
    ensures
        r@ == default_alias(*heaprel, *indexrel),
{
    let mut s = String::new();
    s.append(indexrel.database_name.as_str());
    s.append(".");
    s.append(indexrel.namespace_name.as_str());
    s.append(".");
    s.append(heaprel.name.as_str());
    s.append(".");
    s.append(indexrel.name.as_str());
    s.append("-");
    push_decimal(&mut s, indexrel.oid);
    s
}

/// `database-oid.schema-oid.table-oid.index-oid`, from the relations' oids.
fn build_uuid(heaprel: &Relation, indexrel: &Relation) -> (r: String)
    ensures
        r@ == default_uuid(*heaprel, *indexrel),
{
    let mut s = String::new();
    push_decimal(&mut s, indexrel.database_oid);
    s.append(".");
    push_decimal(&mut s, indexrel.namespace_oid);
    s.append(".");
    push_decimal(&mut s, heaprel.oid);
    s.append(".");
    push_decimal(&mut s, indexrel.oid);
    s
}

impl ZDBIndexOptions {
    /// The options of an index created without any, given the server's
    /// default replica count and the default bulk concurrency.
    pub fn defaults(default_replicas: i32, bulk_concurrency: i32) -> (r: Self)
        ensures
            is_default_options(r, default_replicas, bulk_concurrency),
    {
        ZDBIndexOptions {
            url: None,
            es_type_name: None,
            refresh_interval: None,
            alias: None,
            uuid: None,
            translog_durability: None,
            optimize_after: DEFAULT_OPTIMIZE_AFTER,
            compression_level: DEFAULT_COMPRESSION_LEVEL,
            shards: DEFAULT_SHARDS,
            replicas: default_replicas,
            bulk_concurrency,
            batch_size: DEFAULT_BATCH_SIZE,
            llapi: false,
        }
    }

    /// The options of the index `relation`: those stored with it, or the
    /// defaults when it was created without any. `default_replicas` is the
    /// server's `zdb.default_replicas`; `bulk_concurrency` is the
    /// process-wide bulk concurrency default, the one registered with
    /// PostgreSQL (see [`default_bulk_concurrency`]).
    pub fn from(relation: &Relation, default_replicas: i32, bulk_concurrency: i32) -> (r: Self)
        requires
            relation.is_index,
        ensures
            match relation.options {
                Some(stored) => r == stored,
                None => is_default_options(r, default_replicas, bulk_concurrency),
            },
    {
        match &relation.options {
            Some(stored) => stored.clone(),
            None => ZDBIndexOptions::defaults(default_replicas, bulk_concurrency),
        }
    }

    pub fn optimize_after(&self) -> (r: i32)
        ensures
            r == self.optimize_after,
    {
        self.optimize_after
    }

    pub fn compression_level(&self) -> (r: i32)
        ensures
            r == self.compression_level,
    {
        self.compression_level
    }

    pub fn shards(&self) -> (r: i32)
        ensures
            r == self.shards,
    {
        self.shards
    }

    pub fn replicas(&self) -> (r: i32)
        ensures
            r == self.replicas,
    {
        self.replicas
    }

    pub fn bulk_concurrency(&self) -> (r: i32)
        ensures
            r == self.bulk_concurrency,
    {
        self.bulk_concurrency
    }

    pub fn batch_size(&self) -> (r: i32)
        ensures
            r == self.batch_size,
    {
        self.batch_size
    }

    pub fn llapi(&self) -> (r: bool)
        ensures
            r == self.llapi,
    {
        self.llapi
    }

    /// Whether this index uses the server-wide url: its url is unset or
    /// "default".
    pub fn uses_default_url(&self) -> (r: bool)
        ensures
            r == (setting(self.url, DEFAULT_URL@) == DEFAULT_URL@),
    {
        let url = get_str(&self.url, DEFAULT_URL);
        str_eq(url.as_str(), DEFAULT_URL)
    }

    /// The Elasticsearch url of this index. Where the index uses the
    /// server-wide url, that is `default_elasticsearch_url`
    /// (`zdb.default_elasticsearch_url`), which must then be set.
    pub fn url(&self, default_elasticsearch_url: Option<String>) -> (r: String)
        requires
            setting(self.url, DEFAULT_URL@) == DEFAULT_URL@ ==> default_elasticsearch_url is Some,
        ensures
            r@ == effective_url(*self, default_elasticsearch_url),
    {
        let url = get_str(&self.url, DEFAULT_URL);
        if str_eq(url.as_str(), DEFAULT_URL) {
            match default_elasticsearch_url {
                Some(u) => u,
                None => url,
            }
        } else {
            url
        }
    }

    /// The Elasticsearch type name, "doc" unless set.
    pub fn es_type_name(&self) -> (r: String)
        ensures
            r@ == setting(self.es_type_name, DEFAULT_TYPE_NAME@),
    {
        get_str(&self.es_type_name, DEFAULT_TYPE_NAME)
    }

    /// The refresh interval, "-1" (immediate) unless set.
    pub fn refresh_interval(&self) -> (r: RefreshInterval)
        ensures
            r@ == parse_interval(setting(self.refresh_interval, DEFAULT_REFRESH_INTERVAL@)),
    {
        let s = get_str(&self.refresh_interval, DEFAULT_REFRESH_INTERVAL);
        if str_eq(s.as_str(), "-1") || str_eq(s.as_str(), "immediate") {
            RefreshInterval::Immediate
        } else if str_eq(s.as_str(), "async") {
            RefreshInterval::ImmediateAsync
        } else {
            RefreshInterval::Background(s)
        }
    }

    /// The Elasticsearch alias of the index `indexrel` on the table
    /// `heaprel`: the one set, else `database.schema.table.index-oid`.
    pub fn alias(&self, heaprel: &Relation, indexrel: &Relation) -> (r: String)
        ensures
            r@ == setting(self.alias, default_alias(*heaprel, *indexrel)),
    {
        match &self.alias {
            Some(a) => a.clone(),
            None => build_alias(heaprel, indexrel),
        }
    }

    /// The Elasticsearch index name of the index `indexrel` on the table
    /// `heaprel`: the one set, else the four oids joined by dots.
    pub fn uuid(&self, heaprel: &Relation, indexrel: &Relation) -> (r: String)
        ensures
            r@ == setting(self.uuid, default_uuid(*heaprel, *indexrel)),
    {
        match &self.uuid {
            Some(u) => u.clone(),
            None => build_uuid(heaprel, indexrel),
        }
    }

    /// The name of the index in Elasticsearch, which is its uuid.
    pub fn index_name(&self, heaprel: &Relation, indexrel: &Relation) -> (r: String)
        ensures
            r@ == setting(self.uuid, default_uuid(*heaprel, *indexrel)),
    {
        self.uuid(heaprel, indexrel)
    }

    /// The translog durability, "request" unless set.
    pub fn translog_durability(&self) -> (r: String)
        ensures
            r@ == setting(self.translog_durability, DEFAULT_TRANSLOG_DURABILITY@),
    {
        get_str(&self.translog_durability, DEFAULT_TRANSLOG_DURABILITY)
    }
}

} // verus!
