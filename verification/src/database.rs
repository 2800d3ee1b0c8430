//! Database-side helpers that need no connection: the connection string,
//! identifier quoting, recovery of a branch name from a database name, and
//! the password lookups in pgpass and service-file text.

use vstd::prelude::*;
use vstd::string::*;

use crate::config::Config;
use crate::text::{
    chars_eq, chars_string, dec_str, match_at, matches_at, push_all, replace_all, replace_all_x,
    split_char, split_chars, split_once_at, split_once_x, str_chars, str_eq, trim, trim_chars,
    u16_dec_chars,
};

verus! {

/// Performs database operations for one resolved configuration.
#[derive(Clone, Debug)]
pub struct DatabaseManager {
    pub config: Config,
}

/// A quoted SQL identifier: wrapped in double quotes, every inner double
/// quote doubled.
pub open spec fn spec_escape_identifier(name: Seq<char>) -> Seq<char> {
    seq!['"'] + replace_all(name, seq!['"'], seq!['"', '"']) + seq!['"']
}

/// Quotes a name for interpolation into SQL as an identifier.
pub fn escape_identifier(name: &str) -> (r: String)
    ensures
        r@ == spec_escape_identifier(name@),
{
    let quote: Vec<char> = {
        let mut v: Vec<char> = Vec::new();
        v.push('"');
        v
    };
    let two_quotes: Vec<char> = {
        let mut v: Vec<char> = Vec::new();
        v.push('"');
        v.push('"');
        v
    };
    proof {
        assert(quote@ =~= seq!['"']);
        assert(two_quotes@ =~= seq!['"', '"']);
    }
    let inner = replace_all_x(&str_chars(name), &quote, &two_quotes);
    let mut out: Vec<char> = Vec::new();
    out.push('"');
    push_all(&mut out, &inner);
    out.push('"');
    proof {
        assert(out@ =~= spec_escape_identifier(name@));
    }
    chars_string(&out)
}

/// The connection string for the maintenance database: host, port and
/// user from the configuration, the password when one was resolved, and
/// `dbname=postgres`.
pub open spec fn spec_connection_string(cfg: Config, password: Option<Seq<char>>) -> Seq<char> {
    "host="@ + cfg.database.host@ + " port="@ + dec_str(cfg.database.port as int) + " user="@
        + cfg.database.user@ + (match password {
        Some(p) => " password="@ + p,
        None => Seq::<char>::empty(),
    }) + " dbname=postgres"@
}

/// One pgpass entry applies to this configuration: each of host, port,
/// database and user must be `*` or equal the connection parameter; the
/// maintenance database is always `postgres`.
pub open spec fn spec_matches_pgpass_entry(
    cfg: Config,
    h: Seq<char>,
    p: Seq<char>,
    d: Seq<char>,
    u: Seq<char>,
) -> bool {
    &&& (h == "*"@ || h == cfg.database.host@)
    &&& (p == "*"@ || p == dec_str(cfg.database.port as int))
    &&& (d == "*"@ || d == "postgres"@)
    &&& (u == "*"@ || u == cfg.database.user@)
}

/// A line as `str::lines` yields it: a trailing carriage return left over
/// from a CRLF ending is removed.
pub open spec fn strip_cr(s: Seq<char>) -> Seq<char> {
    if s.len() > 0 && s.last() == '\r' {
        s.drop_last()
    } else {
        s
    }
}

/// A pgpass line that carries no entry: blank or a comment.
pub open spec fn pgpass_line_skipped(line: Seq<char>) -> bool {
    trim(line).len() == 0 || (line.len() > 0 && line[0] == '#')
}

/// The password of the first pgpass line whose entry applies: a line is
/// skipped when blank, a comment, or not made of exactly five
/// colon-separated fields; of a matching line the fifth field is the
/// password.
pub open spec fn pgpass_lookup(lines: Seq<Seq<char>>, cfg: Config) -> Option<Seq<char>>
    decreases lines.len(),
{
    if lines.len() == 0 {
        None
    } else {
        let line = strip_cr(lines[0]);
        let rest = lines.drop_first();
        if pgpass_line_skipped(line) {
            pgpass_lookup(rest, cfg)
        } else {
            let parts = split_char(line, ':');
            if parts.len() != 5 {
                pgpass_lookup(rest, cfg)
            } else if spec_matches_pgpass_entry(cfg, parts[0], parts[1], parts[2], parts[3]) {
                Some(parts[4])
            } else {
                pgpass_lookup(rest, cfg)
            }
        }
    }
}

/// The password of the configured service in service-file text: section
/// headers `[name]` select the current service; within the wanted service
/// the first `password=` line wins; keys and values are trimmed.
pub open spec fn service_lookup(
    lines: Seq<Seq<char>>,
    current: Option<Seq<char>>,
    service: Seq<char>,
) -> Option<Seq<char>>
    decreases lines.len(),
{
    if lines.len() == 0 {
        None
    } else {
        let line = trim(lines[0]);
        let rest = lines.drop_first();
        if line.len() == 0 || line[0] == '#' {
            service_lookup(rest, current, service)
        } else if line[0] == '[' && line.last() == ']' {
            service_lookup(rest, Some(line.subrange(1, line.len() - 1)), service)
        } else if current == Some(service) {
            match split_once_at(line, '=') {
                Some(kv) => if trim(kv.0) == "password"@ {
                    Some(trim(kv.1))
                } else {
                    service_lookup(rest, current, service)
                },
                None => service_lookup(rest, current, service),
            }
        } else {
            service_lookup(rest, current, service)
        }
    }
}

impl DatabaseManager {
    /// Wraps a resolved configuration.
    pub fn new(config: Config) -> (r: DatabaseManager)
        ensures
            r.config == config,
    {
        DatabaseManager { config }
    }

    /// The connection string for the maintenance database, given the
    /// password the authentication methods resolved, if any.
    pub fn build_connection_string(&self, password: Option<&String>) -> (r: String)
        ensures
            r@ == spec_connection_string(
                self.config,
                match password {
                    Some(p) => Some(p@),
                    None => None,
                },
            ),
    {
        let mut out: Vec<char> = Vec::new();
        push_all(&mut out, &str_chars("host="));
        push_all(&mut out, &str_chars(self.config.database.host.as_str()));
        push_all(&mut out, &str_chars(" port="));
        push_all(&mut out, &u16_dec_chars(self.config.database.port));
        push_all(&mut out, &str_chars(" user="));
        push_all(&mut out, &str_chars(self.config.database.user.as_str()));
        if let Some(p) = password {
            push_all(&mut out, &str_chars(" password="));
            push_all(&mut out, &str_chars(p.as_str()));
        }
        push_all(&mut out, &str_chars(" dbname=postgres"));
        proof {
            assert(out@ =~= spec_connection_string(
                self.config,
                match password {
                    Some(p) => Some(p@),
                    None => None,
                },
            ));
        }
        chars_string(&out)
    }

    /// The branch name encoded in a database name: what follows the
    /// configured prefix and one underscore, when the name starts so.
    pub fn extract_branch_name(&self, db_name: &str) -> (r: Option<String>)
        ensures
            ({
                let p = self.config.database.database_prefix@ + seq!['_'];
                &&& (r is Some <==> match_at(db_name@, p, 0))
                &&& (r is Some ==> r->0@ == db_name@.skip(p.len() as int))
            }),
    {
        let mut p = str_chars(self.config.database.database_prefix.as_str());
        p.push('_');
        proof {
            assert(p@ =~= self.config.database.database_prefix@ + seq!['_']);
        }
        let db = str_chars(db_name);
        if db.len() < p.len() {
            proof {
                assert(!match_at(db_name@, p@, 0));
            }
            return None;
        }
        if matches_at(&db, &p, 0) {
            let mut rest: Vec<char> = Vec::new();
            let mut i: usize = p.len();
            while i < db.len()
                invariant
                    p@.len() <= i <= db@.len(),
                    rest@ == db@.skip(p@.len() as int).take(i - p@.len()),
                decreases db.len() - i,
            {
                rest.push(db[i]);
                assert(rest@ =~= db@.skip(p@.len() as int).take(i - p@.len() + 1));
                i = i + 1;
            }
            proof {
                assert(db@.skip(p@.len() as int).take(db@.len() - p@.len()) =~= db@.skip(
                    p@.len() as int,
                ));
            }
            Some(chars_string(&rest))
        } else {
            None
        }
    }

    /// Whether one pgpass entry applies to this configuration.
    pub fn matches_pgpass_entry(
        &self,
        pg_host: &str,
        pg_port: &str,
        pg_database: &str,
        pg_user: &str,
    ) -> (r: bool)
        ensures
            r == spec_matches_pgpass_entry(
                self.config,
                pg_host@,
                pg_port@,
                pg_database@,
                pg_user@,
            ),
    {
        let port_chars = u16_dec_chars(self.config.database.port);
        let host_matches = str_eq(pg_host, "*") || str_eq(pg_host, self.config.database.host.as_str());
        let port_matches = str_eq(pg_port, "*") || chars_eq(&str_chars(pg_port), &port_chars);
        let database_matches = str_eq(pg_database, "*") || str_eq(pg_database, "postgres");
        let user_matches = str_eq(pg_user, "*") || str_eq(pg_user, self.config.database.user.as_str());
        host_matches && port_matches && database_matches && user_matches
    }

    /// The password this configuration finds in pgpass file text.
    pub fn find_pgpass_password(&self, content: &str) -> (r: Option<String>)
        ensures
            ({
                let l = pgpass_lookup(split_char(content@, '\n'), self.config);
                &&& (r is Some <==> l is Some)
                &&& (r is Some ==> r->0@ == l->0)
            }),
    {
        let lines = split_chars(&str_chars(content), '\n');
        let ghost all = split_char(content@, '\n');
        proof {
            assert(all.skip(0) =~~= all);
        }
        let mut i: usize = 0;
        while i < lines.len()
            invariant
                i <= lines@.len(),
                all == split_char(content@, '\n'),
                lines.deep_view() == all,
                pgpass_lookup(all.skip(i as int), self.config) == pgpass_lookup(all, self.config),
            decreases lines.len() - i,
        {
            let ghost rest = all.skip(i as int);
            proof {
                assert(rest[0] == all[i as int]);
                assert(rest.drop_first() =~~= all.skip(i + 1));
                assert(lines.deep_view()[i as int] == lines@[i as int]@);
            }
            let mut line = {
                let mut v: Vec<char> = Vec::new();
                push_all(&mut v, &lines[i]);
                v
            };
            if line.len() > 0 && line[line.len() - 1] == '\r' {
                proof {
                    assert(line@.last() == '\r');
                }
                line.pop();
            }
            assert(line@ == strip_cr(all[i as int]));
            let trimmed = trim_chars(&line);
            let is_comment: bool = line.len() > 0 && line[0] == '#';
            if trimmed.len() == 0 || is_comment {
                proof {
                    assert(pgpass_line_skipped(strip_cr(rest[0])));
                    assert(pgpass_lookup(rest, self.config) == pgpass_lookup(
                        all.skip(i + 1),
                        self.config,
                    ));
                }
                i = i + 1;
                continue;
            }
            proof {
                assert(!pgpass_line_skipped(strip_cr(rest[0])));
            }
            let parts = split_chars(&line, ':');
            proof {
                assert(parts.deep_view() == split_char(strip_cr(rest[0]), ':'));
                assert(parts@.len() == parts.deep_view().len());
            }
            if parts.len() != 5 {
                proof {
                    assert(pgpass_lookup(rest, self.config) == pgpass_lookup(
                        all.skip(i + 1),
                        self.config,
                    ));
                }
                i = i + 1;
                continue;
            }
            proof {
                assert(parts.deep_view()[0] == parts@[0]@);
                assert(parts.deep_view()[1] == parts@[1]@);
                assert(parts.deep_view()[2] == parts@[2]@);
                assert(parts.deep_view()[3] == parts@[3]@);
                assert(parts.deep_view()[4] == parts@[4]@);
            }
            let h = chars_string(&parts[0]);
            let p = chars_string(&parts[1]);
            let d = chars_string(&parts[2]);
            let u = chars_string(&parts[3]);
            if self.matches_pgpass_entry(h.as_str(), p.as_str(), d.as_str(), u.as_str()) {
                proof {
                    assert(pgpass_lookup(rest, self.config) == Some(parts.deep_view()[4]));
                }
                return Some(chars_string(&parts[4]));
            }
            proof {
                assert(pgpass_lookup(rest, self.config) == pgpass_lookup(
                    all.skip(i + 1),
                    self.config,
                ));
            }
            i = i + 1;
        }
        proof {
            assert(all.skip(all.len() as int) =~~= Seq::<Seq<char>>::empty());
        }
        None
    }

    /// The password of the named service in service file text.
    pub fn find_service_password(&self, content: &str, service_name: &str) -> (r: Option<String>)
        ensures
            ({
                let l = service_lookup(split_char(content@, '\n'), None, service_name@);
                &&& (r is Some <==> l is Some)
                &&& (r is Some ==> r->0@ == l->0)
            }),
    {
        let service = str_chars(service_name);
        let lines = split_chars(&str_chars(content), '\n');
        let ghost all = split_char(content@, '\n');
        let mut current: Option<Vec<char>> = None;
        proof {
            assert(all.skip(0) =~~= all);
        }
        let mut i: usize = 0;
        while i < lines.len()
            invariant
                i <= lines@.len(),
                all == split_char(content@, '\n'),
                service@ == service_name@,
                lines.deep_view() == all,
                (match &current {
                    Some(v) => service_lookup(all.skip(i as int), Some(v@), service_name@),
                    None => service_lookup(all.skip(i as int), None, service_name@),
                }) == service_lookup(all, None, service_name@),
            decreases lines.len() - i,
        {
            let ghost rest = all.skip(i as int);
            proof {
                assert(rest[0] == all[i as int]);
                assert(rest.drop_first() =~~= all.skip(i + 1));
                assert(lines.deep_view()[i as int] == lines@[i as int]@);
            }
            let ghost curv: Option<Seq<char>> = match &current {
                Some(v) => Some(v@),
                None => None,
            };
            let line = trim_chars(&lines[i]);
            assert(line@ == trim(all[i as int]));
            if line.len() == 0 || line[0] == '#' {
                proof {
                    assert(service_lookup(rest, curv, service_name@) == service_lookup(
                        all.skip(i + 1),
                        curv,
                        service_name@,
                    ));
                }
                i = i + 1;
                continue;
            }
            if line[0] == '[' && line[line.len() - 1] == ']' {
                proof {
                    assert(line@.last() == ']');
                }
                let mut inner: Vec<char> = Vec::new();
                let mut k: usize = 1;
                while k < line.len() - 1
                    invariant
                        line@.len() >= 2,
                        1 <= k <= line@.len() - 1,
                        inner@ == line@.subrange(1, k as int),
                    decreases line.len() - k,
                {
                    inner.push(line[k]);
                    assert(inner@ =~= line@.subrange(1, k + 1 as int));
                    k = k + 1;
                }
                proof {
                    assert(inner@ =~= trim(rest[0]).subrange(1, trim(rest[0]).len() - 1));
                    assert(service_lookup(rest, curv, service_name@) == service_lookup(
                        all.skip(i + 1),
                        Some(inner@),
                        service_name@,
                    ));
                }
                current = Some(inner);
                i = i + 1;
                continue;
            }
            let in_wanted: bool = match &current {
                Some(v) => chars_eq(v, &service),
                None => false,
            };
            proof {
                assert(in_wanted <==> curv == Some(service_name@));
            }
            if in_wanted {
                match split_once_x(&line, '=') {
                    Some(kv) => {
                        let key = trim_chars(&kv.0);
                        if str_eq(chars_string(&key).as_str(), "password") {
                            let value = trim_chars(&kv.1);
                            proof {
                                let skv = split_once_at(trim(rest[0]), '=')->0;
                                assert(service_lookup(rest, curv, service_name@) == Some(
                                    trim(skv.1),
                                ));
                            }
                            return Some(chars_string(&value));
                        }
                    },
                    None => {},
                }
            }
            proof {
                assert(service_lookup(rest, curv, service_name@) == service_lookup(
                    all.skip(i + 1),
                    curv,
                    service_name@,
                ));
            }
            i = i + 1;
        }
        proof {
            assert(all.skip(all.len() as int) =~~= Seq::<Seq<char>>::empty());
        }
        None
    }
}

} // verus!
