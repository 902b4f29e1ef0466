use vstd::prelude::*;

verus! {

/// The placeholder outcome attached to a monitor.
#[derive(Clone, Copy, Debug, PartialEq, Eq, Structural)]
pub struct ResultData {
    pub value: Option<i32>,
    /// Unix time in seconds at which the result was produced.
    pub processed_at: i64,
}

/// One monitor record.
#[derive(Debug)]
pub struct Monitor {
    pub name: String,
    pub monitor_id: Option<u32>,
    pub script: Option<String>,
    pub result: Option<ResultData>,
    pub code: String,
}

/// The ordered collection of monitor records.
#[derive(Debug)]
pub struct Monitors {
    pub monitors: Vec<Monitor>,
}

/// The mathematical value of a monitor record.
pub struct MonitorView {
    pub name: Seq<char>,
    pub monitor_id: Option<u32>,
    pub script: Option<Seq<char>>,
    pub result: Option<ResultData>,
    pub code: Seq<char>,
}

pub open spec fn opt_str_view(s: Option<String>) -> Option<Seq<char>> {
    match s {
        Some(t) => Some(t@),
        None => None,
    }
}

impl View for Monitor {
    type V = MonitorView;

    open spec fn view(&self) -> MonitorView {
        MonitorView {
            name: self.name@,
            monitor_id: self.monitor_id,
            script: opt_str_view(self.script),
            result: self.result,
            code: self.code@,
        }
    }
}

impl View for Monitors {
    type V = Seq<MonitorView>;

    open spec fn view(&self) -> Seq<MonitorView> {
        self.monitors@.map_values(|m: Monitor| m@)
    }
}

/// Two records agree on everything but their result.
pub open spec fn same_identity(a: MonitorView, b: MonitorView) -> bool {
    &&& a.name == b.name
    &&& a.monitor_id == b.monitor_id
    &&& a.script == b.script
    &&& a.code == b.code
}

impl ResultData {
    pub fn new(value: Option<i32>, processed_at: i64) -> (r: ResultData)
        ensures
            r.value == value,
            r.processed_at == processed_at,
    {
        ResultData { value, processed_at }
    }
}

fn copy_opt_string(s: &Option<String>) -> (r: Option<String>)
    ensures
        opt_str_view(r) == opt_str_view(*s),
{
    match s {
        Some(t) => Some(t.clone()),
        None => None,
    }
}

impl Monitor {
    pub fn new(
        name: String,
        monitor_id: Option<u32>,
        script: Option<String>,
        code: String,
        result: Option<ResultData>,
    ) -> (r: Monitor)
        ensures
            r.name@ == name@,
            r.monitor_id == monitor_id,
            opt_str_view(r.script) == opt_str_view(script),
            r.code@ == code@,
            r.result == result,
    {
        Monitor { name, monitor_id, script, result, code }
    }

    /// A copy that holds the same values.
    pub fn snapshot(&self) -> (r: Monitor)
        ensures
            r@ == self@,
    {
        Monitor {
            name: self.name.clone(),
            monitor_id: self.monitor_id,
            script: copy_opt_string(&self.script),
            result: self.result,
            code: self.code.clone(),
        }
    }
}

impl Monitors {
    pub fn new(monitors: Vec<Monitor>) -> (r: Monitors)
        ensures
            r.monitors@ == monitors@,
    {
        Monitors { monitors }
    }

    pub fn len(&self) -> (r: usize)
        ensures
            r == self@.len(),
    {
        self.monitors.len()
    }

    /// A copy of the whole collection as it stands: what a store tick writes.
    pub fn snapshot(&self) -> (r: Monitors)
        ensures
            r@ == self@,
    {
        let mut out: Vec<Monitor> = Vec::with_capacity(self.monitors.len());
        let n = self.monitors.len();
        let mut i: usize = 0;
        while i < n
            invariant
                n == self.monitors@.len(),
                i <= n,
                out@.len() == i,
                forall|j: int| 0 <= j < i ==> out@[j]@ == self.monitors@[j]@,
            decreases n - i,
        {
            out.push(self.monitors[i].snapshot());
            i = i + 1;
        }
        let r = Monitors { monitors: out };
        assert(r@ =~= self@);
        r
    }
}

fn same_opt_string(a: &Option<String>, b: &Option<String>) -> (r: bool)
    ensures
        r == (opt_str_view(*a) == opt_str_view(*b)),
{
    match a {
        Some(x) => match b {
            Some(y) => {
                let e = x.eq(y);
                e
            },
            None => false,
        },
        None => b.is_none(),
    }
}

impl Monitor {
    /// Whether two records hold the same values.
    pub fn same_as(&self, other: &Monitor) -> (r: bool)
        ensures
            r == (self@ == other@),
    {
        self.name == other.name && self.monitor_id == other.monitor_id && same_opt_string(
            &self.script,
            &other.script,
        ) && self.result == other.result && self.code == other.code
    }
}

impl Monitors {
    /// Whether two collections hold the same records in the same order.
    pub fn same_as(&self, other: &Monitors) -> (r: bool)
        ensures
            r == (self@ == other@),
    {
        let n = self.monitors.len();
        if n != other.monitors.len() {
            assert(self@.len() != other@.len());
            return false;
        }
        let mut i: usize = 0;
        while i < n
            invariant
                n == self.monitors@.len(),
                n == other.monitors@.len(),
                i <= n,
                forall|j: int| 0 <= j < i ==> self@[j] == other@[j],
            decreases n - i,
        {
            if !self.monitors[i].same_as(&other.monitors[i]) {
                assert(self@[i as int] != other@[i as int]);
                return false;
            }
            i = i + 1;
        }
        assert(self@ =~= other@);
        true
    }
}

} // verus!
