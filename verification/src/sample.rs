//! The telemetry sample: an accumulator of whichever fields the cycle
//! acquired, and its serialization to a compact JSON object.
//!
//! A field that was not acquired is absent from the record entirely; it is
//! never emitted with a null value.  Temperature and humidity are numeric
//! fields whose rendered text is produced at the sensor edge; date and time
//! are string fields the library renders itself from a clock reading.

use vstd::prelude::*;
use vstd::string::StringExecFns;
use crate::clock::ClockReading;
use crate::clock::date_chars;
use crate::clock::format_date;
use crate::clock::format_time;
use crate::clock::time_chars;

verus! {

/// Mathematical model of a sample: for each field, either absence or the
/// character content of its value.
pub struct SampleModel {
    pub temperature: Option<Seq<char>>,
    pub humidity: Option<Seq<char>>,
    pub date: Option<Seq<char>>,
    pub time: Option<Seq<char>>,
}

/// A JSON object entry whose value is spliced bare: `"name":value`.
pub open spec fn num_entry(name: Seq<char>, value: Seq<char>) -> Seq<char> {
    seq!['"'] + name + seq!['"', ':'] + value
}

/// A JSON object entry whose value is a quoted string: `"name":"value"`.
pub open spec fn str_entry(name: Seq<char>, value: Seq<char>) -> Seq<char> {
    seq!['"'] + name + seq!['"', ':', '"'] + value + seq!['"']
}

/// Entries joined with commas, no comma before the first or after the last.
pub open spec fn join_comma(parts: Seq<Seq<char>>) -> Seq<char>
    decreases parts.len(),
{
    if parts.len() == 0 {
        Seq::empty()
    } else if parts.len() == 1 {
        parts[0]
    } else {
        parts[0] + seq![','] + join_comma(parts.drop_first())
    }
}

proof fn lemma_join_push(parts: Seq<Seq<char>>, p: Seq<char>)
    ensures
        join_comma(parts.push(p)) == if parts.len() == 0 {
            p
        } else {
            join_comma(parts) + seq![','] + p
        },
    decreases parts.len(),
{
    if parts.len() == 0 {
        assert(parts.push(p).len() == 1);
        assert(parts.push(p)[0] == p);
    } else if parts.len() == 1 {
        assert(parts.push(p).drop_first() =~= seq![p]);
        assert(join_comma(seq![p]) == p);
        assert(parts.push(p)[0] == parts[0]);
    } else {
        lemma_join_push(parts.drop_first(), p);
        assert(parts.push(p).drop_first() =~= parts.drop_first().push(p));
        assert(parts.push(p)[0] == parts[0]);
        assert(join_comma(parts.push(p)) =~= join_comma(parts) + seq![','] + p);
    }
}

impl SampleModel {
    /// The entries of the record, in acquisition order, each present exactly
    /// when its field was acquired.
    pub open spec fn entries(self) -> Seq<Seq<char>> {
        (match self.temperature {
            Some(v) => seq![num_entry("temperature"@, v)],
            None => Seq::empty(),
        }) + (match self.humidity {
            Some(v) => seq![num_entry("humidity"@, v)],
            None => Seq::empty(),
        }) + (match self.date {
            Some(v) => seq![str_entry("date"@, v)],
            None => Seq::empty(),
        }) + (match self.time {
            Some(v) => seq![str_entry("time"@, v)],
            None => Seq::empty(),
        })
    }

    /// The serialized record: a JSON object holding exactly the acquired
    /// fields.
    pub open spec fn json_chars(self) -> Seq<char> {
        seq!['{'] + join_comma(self.entries()) + seq!['}']
    }
}

/// The per-cycle accumulator.  Built afresh each cycle from whichever
/// acquisitions succeeded, serialized once, then discarded.
#[derive(Debug)]
pub struct TelemetrySample {
    pub temperature: Option<String>,
    pub humidity: Option<String>,
    pub date: Option<String>,
    pub time: Option<String>,
}

impl View for TelemetrySample {
    type V = SampleModel;

    open spec fn view(&self) -> SampleModel {
        SampleModel {
            temperature: match self.temperature {
                Some(s) => Some(s@),
                None => None,
            },
            humidity: match self.humidity {
                Some(s) => Some(s@),
                None => None,
            },
            date: match self.date {
                Some(s) => Some(s@),
                None => None,
            },
            time: match self.time {
                Some(s) => Some(s@),
                None => None,
            },
        }
    }
}

impl TelemetrySample {
    /// The empty sample of a cycle in which nothing was acquired yet.
    pub fn new() -> (r: TelemetrySample)
        ensures
            r@ == (SampleModel { temperature: None, humidity: None, date: None, time: None }),
    {
        TelemetrySample { temperature: None, humidity: None, date: None, time: None }
    }

    /// Record the sensor fields of a cycle whose sensor read succeeded.
    /// The two arguments are the rendered numeric texts of the reading.
    pub fn set_sensor(&mut self, temperature: String, humidity: String)
        ensures
            final(self)@ == (SampleModel {
                temperature: Some(temperature@),
                humidity: Some(humidity@),
                ..old(self)@
            }),
    {
        self.temperature = Some(temperature);
        self.humidity = Some(humidity);
    }

    /// Record the date and time fields of a cycle whose clock read
    /// succeeded.
    pub fn set_clock(&mut self, c: &ClockReading)
        requires
            c.wf(),
        ensures
            final(self)@ == (SampleModel {
                date: Some(date_chars(*c)),
                time: Some(time_chars(*c)),
                ..old(self)@
            }),
    {
        self.date = Some(format_date(c));
        self.time = Some(format_time(c));
    }

    /// Serialize the sample to its compact JSON text.
    #[verifier::rlimit(100)]
    pub fn serialize(&self) -> (r: String)
        ensures
            r@ == self@.json_chars(),
    {
        let ghost m = self@;
        let mut out = String::from_str("{");
        let mut first: bool = true;
        let ghost mut parts: Seq<Seq<char>> = Seq::empty();
        proof {
            reveal_strlit("{");
            assert(out@ =~= seq!['{'] + join_comma(parts));
        }
        if let Some(t) = &self.temperature {
            if !first {
                out.append(",");
            }
            out.append("\"temperature\":");
            out.append(t.as_str());
            proof {
                lemma_join_push(parts, num_entry("temperature"@, t@));
                reveal_strlit(",");
                reveal_strlit("\"temperature\":");
                reveal_strlit("temperature");
                assert("\"temperature\":"@ =~= seq!['"'] + "temperature"@ + seq!['"', ':']);
                parts = parts.push(num_entry("temperature"@, t@));
                assert(out@ =~= seq!['{'] + join_comma(parts));
            }
            first = false;
        }
        if let Some(h) = &self.humidity {
            if !first {
                out.append(",");
            }
            out.append("\"humidity\":");
            out.append(h.as_str());
            proof {
                lemma_join_push(parts, num_entry("humidity"@, h@));
                reveal_strlit(",");
                reveal_strlit("\"humidity\":");
                reveal_strlit("humidity");
                assert("\"humidity\":"@ =~= seq!['"'] + "humidity"@ + seq!['"', ':']);
                parts = parts.push(num_entry("humidity"@, h@));
                assert(out@ =~= seq!['{'] + join_comma(parts));
            }
            first = false;
        }
        if let Some(d) = &self.date {
            if !first {
                out.append(",");
            }
            out.append("\"date\":\"");
            out.append(d.as_str());
            out.append("\"");
            proof {
                lemma_join_push(parts, str_entry("date"@, d@));
                reveal_strlit(",");
                reveal_strlit("\"date\":\"");
                reveal_strlit("date");
                reveal_strlit("\"");
                assert("\"date\":\""@ =~= seq!['"'] + "date"@ + seq!['"', ':', '"']);
                assert("\""@ =~= seq!['"']);
                parts = parts.push(str_entry("date"@, d@));
                assert(out@ =~= seq!['{'] + join_comma(parts));
            }
            first = false;
        }
        if let Some(t) = &self.time {
            if !first {
                out.append(",");
            }
            out.append("\"time\":\"");
            out.append(t.as_str());
            out.append("\"");
            proof {
                lemma_join_push(parts, str_entry("time"@, t@));
                reveal_strlit(",");
                reveal_strlit("\"time\":\"");
                reveal_strlit("time");
                reveal_strlit("\"");
                assert("\"time\":\""@ =~= seq!['"'] + "time"@ + seq!['"', ':', '"']);
                assert("\""@ =~= seq!['"']);
                parts = parts.push(str_entry("time"@, t@));
                assert(out@ =~= seq!['{'] + join_comma(parts));
            }
        }
        out.append("}");
        proof {
            reveal_strlit("}");
            assert(parts =~= m.entries());
            assert(out@ =~= m.json_chars());
        }
        out
    }
}

} // verus!
