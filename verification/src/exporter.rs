//! Request counters, kept in a Prometheus registry.

use vstd::prelude::*;

verus! {

#[verifier::external_type_specification]
#[verifier::external_body]
pub struct ExRegistry(prometheus::Registry);

#[verifier::external_type_specification]
#[verifier::external_body]
pub struct ExPrometheusError(prometheus::Error);

/// One Prometheus counter. Its count lives behind a shared atomic: a clone
/// counts into the same cell, any thread may add to it, and no contract
/// speaks of the count.
#[verifier::external_body]
pub struct RequestCounter(pub prometheus::Counter);

/// Why the counters could not be set up.
#[derive(Clone, Copy, Debug, PartialEq, Eq, Structural)]
pub enum MetricsError {
    /// Prometheus refused a counter's name or help text.
    InvalidCounter,
    /// The registry refused a counter, for instance because it already
    /// holds one of that name.
    NotRegistered,
}

/// A counter together with the name that it was made under, which is the
/// name that Prometheus shows it by.
pub struct NamedCounter {
    pub name: String,
    pub counter: RequestCounter,
}

/// The two counters of the article service.
pub struct Metrics {
    pub post_articles_count: NamedCounter,
    pub get_articles_count: NamedCounter,
}

/// Whether a metric name may start with the character: an ASCII letter, an
/// underscore or a colon.
pub open spec fn is_name_start(c: char) -> bool {
    let code = c as u32;
    ||| 'a' as u32 <= code <= 'z' as u32
    ||| 'A' as u32 <= code <= 'Z' as u32
    ||| c == '_'
    ||| c == ':'
}

/// Whether a metric name may go on with the character: what it may start
/// with, or an ASCII digit.
pub open spec fn is_name_char(c: char) -> bool {
    is_name_start(c) || '0' as u32 <= c as u32 <= '9' as u32
}

/// Whether a text is a metric name to Prometheus: not empty, and made of
/// ASCII letters, digits, underscores and colons, with no digit in front.
pub open spec fn is_metric_name(name: Seq<char>) -> bool {
    &&& name.len() > 0
    &&& is_name_start(name[0])
    &&& forall|i: int| 0 < i < name.len() ==> is_name_char(#[trigger] name[i])
}

/// Whether Prometheus makes a counter without labels of a name and a help
/// text: the name has to be a metric name, and the help text not empty.
pub open spec fn counter_is_accepted(name: Seq<char>, help: Seq<char>) -> bool {
    help.len() > 0 && is_metric_name(name)
}

/// The name of the counter of posted articles.
pub open spec fn posted_counter_name() -> Seq<char> {
    "post_articles_requests"@
}

/// The name of the counter of reads.
pub open spec fn read_counter_name() -> Seq<char> {
    "get_articles_requests"@
}

impl RequestCounter {
    /// Calls `prometheus::Counter::with_opts` on `prometheus::Opts::new(name,
    /// help)`, which makes a counter without labels, outside any namespace.
    /// Prometheus makes it exactly when the help text is not empty and the
    /// name is a metric name; of the counter itself nothing is claimed.
    #[verifier::external_body]
    pub(crate) fn with_opts(name: &str, help: &str) -> (r: Result<RequestCounter, prometheus::Error>)
        ensures
            r is Ok <==> counter_is_accepted(name@, help@),
    {
        match prometheus::Counter::with_opts(prometheus::Opts::new(name, help)) {
            Ok(counter) => Ok(RequestCounter(counter)),
            Err(e) => Err(e),
        }
    }

    /// Calls `prometheus::Registry::register` with a clone of the counter,
    /// which shares its count. The registry decides; nothing is claimed of
    /// the outcome.
    #[verifier::external_body]
    pub(crate) fn register(&self, registry: &prometheus::Registry) -> (r: Result<(), prometheus::Error>) {
        registry.register(Box::new(self.0.clone()))
    }

    /// Calls `prometheus::Counter::inc`, which adds one to the count.
    #[verifier::external_body]
    pub(crate) fn inc(&self) {
        self.0.inc()
    }
}

impl NamedCounter {
    /// Makes a counter without labels under the given name, with the given
    /// help text. Prometheus makes it exactly when the help text is not
    /// empty and the name is a metric name.
    pub fn create(name: &str, help: &str) -> (r: Result<NamedCounter, prometheus::Error>)
        ensures
            r is Ok <==> counter_is_accepted(name@, help@),
            r matches Ok(made) ==> made.name@ == name@,
    {
        match RequestCounter::with_opts(name, help) {
            Ok(counter) => Ok(NamedCounter { name: name.to_owned(), counter }),
            Err(e) => Err(e),
        }
    }
}

/// Calls `prometheus::Registry::new`, which gives an empty registry.
#[verifier::external_body]
pub(crate) fn empty_registry() -> prometheus::Registry {
    prometheus::Registry::new()
}

/// What setting up the counters comes to, given what Prometheus said at
/// each step: the two creations, then the two registrations.
pub open spec fn setup_outcome(
    posted_created: bool,
    read_created: bool,
    posted_registered: bool,
    read_registered: bool,
) -> Result<(), MetricsError> {
    if !posted_created || !read_created {
        Err(MetricsError::InvalidCounter)
    } else if !posted_registered || !read_registered {
        Err(MetricsError::NotRegistered)
    } else {
        Ok(())
    }
}

impl Metrics {
    /// Assembles the metrics from the answers of Prometheus. The counters
    /// come out exactly when every step succeeded; otherwise the error
    /// names the first kind of step that failed.
    pub fn from_steps(
        posted: Result<NamedCounter, prometheus::Error>,
        read: Result<NamedCounter, prometheus::Error>,
        posted_registered: bool,
        read_registered: bool,
    ) -> (r: Result<Metrics, MetricsError>)
        ensures
            match setup_outcome(posted is Ok, read is Ok, posted_registered, read_registered) {
                Ok(_) => r is Ok
                    && r->Ok_0.post_articles_count == posted->Ok_0
                    && r->Ok_0.get_articles_count == read->Ok_0,
                Err(e) => r == Err::<Metrics, MetricsError>(e),
            },
    {
        match (posted, read) {
            (Ok(post_articles_count), Ok(get_articles_count)) => {
                if posted_registered && read_registered {
                    Ok(Metrics { post_articles_count, get_articles_count })
                } else {
                    Err(MetricsError::NotRegistered)
                }
            },
            _ => Err(MetricsError::InvalidCounter),
        }
    }

    /// Creates the two counters, then registers them in `registry`: first
    /// the counter of posted articles, then the counter of reads. A
    /// registration that fails ends the setup, and nothing after it is
    /// tried.
    ///
    /// The counters themselves are always made: their names are metric
    /// names and their help texts are not empty. Whether they can be
    /// registered is for the registry to say, which takes each name once.
    /// So the setup may fail whatever the arguments, and where it fails it
    /// is for a registration. Where it succeeds, each counter was made
    /// under its own name.
    pub fn new(registry: &prometheus::Registry) -> (r: Result<Metrics, MetricsError>)
        ensures
            r matches Err(e) ==> e == MetricsError::NotRegistered,
            r matches Ok(metrics) ==> metrics.post_articles_count.name@ == posted_counter_name()
                && metrics.get_articles_count.name@ == read_counter_name(),
    {
        proof {
            lemma_counters_are_accepted();
        }
        let posted = NamedCounter::create(
            "post_articles_requests",
            "Total number of handled POST articles requests",
        );
        let read = NamedCounter::create(
            "get_articles_requests",
            "Total number of handled GET articles requests",
        );
        let posted_registered = match &posted {
            Ok(made) => made.counter.register(registry).is_ok(),
            Err(_) => false,
        };
        let read_registered = match &read {
            Ok(made) => posted_registered && made.counter.register(registry).is_ok(),
            Err(_) => false,
        };
        Metrics::from_steps(posted, read, posted_registered, read_registered)
    }

    /// Creates the two counters in a registry of their own, as `new` does
    /// in a given one. Where the setup fails, it is for a registration;
    /// where it succeeds, each counter was made under its own name.
    pub fn build() -> (r: Result<Metrics, MetricsError>)
        ensures
            r matches Err(e) ==> e == MetricsError::NotRegistered,
            r matches Ok(metrics) ==> metrics.post_articles_count.name@ == posted_counter_name()
                && metrics.get_articles_count.name@ == read_counter_name(),
    {
        let registry = empty_registry();
        Metrics::new(&registry)
    }

    /// Counts one posted article.
    pub fn count_posted(&self) {
        self.post_articles_count.counter.inc()
    }

    /// Counts one read of the articles.
    pub fn count_read(&self) {
        self.get_articles_count.counter.inc()
    }
}

/// Prometheus makes both counters of the service: their names are metric
/// names, and their help texts are not empty.
pub proof fn lemma_counters_are_accepted()
    ensures
        counter_is_accepted(
            posted_counter_name(),
            "Total number of handled POST articles requests"@,
        ),
        counter_is_accepted(read_counter_name(), "Total number of handled GET articles requests"@),
{
    reveal_strlit("post_articles_requests");
    reveal_strlit("get_articles_requests");
    reveal_strlit("Total number of handled POST articles requests");
    reveal_strlit("Total number of handled GET articles requests");
}

} // verus!
