//! Maven-style package coordinates.
use crate::error::Error;
use crate::split::{
    free_of, lemma_split_join, lemma_split_nonempty, lemma_split_single, split, split_at_char, views,
};
use vstd::prelude::*;

verus! {

/// A Maven-style package coordinate: `group:artifact:version[:classifier][@extension]`.
#[derive(Debug, Clone)]
pub struct GradleSpecifier {
    /// The group id, such as `org.lwjgl`
    pub group: String,
    /// The artifact id, such as `lwjgl`
    pub artifact: String,
    /// The version of the artifact
    pub version: String,
    /// The classifier that tells variants of one artifact apart, if any
    pub classifier: Option<String>,
    /// The file extension, if one other than the default is named
    pub extension: Option<String>,
}

/// `s` has the shape of a coordinate: at most one `@`, and before it three or
/// four `:`-separated parts.
pub open spec fn coordinate_shape_ok(s: Seq<char>) -> bool {
    let at = split(s, '@');
    &&& at.len() <= 2
    &&& 3 <= split(at[0], ':').len() <= 4
}

/// `g` holds the parts of the coordinate text `s`, taken apart at its separators.
pub open spec fn parsed_as(g: GradleSpecifier, s: Seq<char>) -> bool {
    let at = split(s, '@');
    let parts = split(at[0], ':');
    &&& g.group@ == parts[0]
    &&& g.artifact@ == parts[1]
    &&& g.version@ == parts[2]
    &&& if parts.len() == 4 {
        g.classifier matches Some(c) && c@ == parts[3]
    } else {
        g.classifier is None
    }
    &&& if at.len() == 2 {
        g.extension matches Some(e) && e@ == at[1]
    } else {
        g.extension is None
    }
}

/// The coordinate text of `g`.
pub open spec fn rendered(g: GradleSpecifier) -> Seq<char> {
    g.group@ + ":"@ + g.artifact@ + ":"@ + g.version@ + match g.classifier {
        Some(c) => ":"@ + c@,
        None => Seq::empty(),
    } + match g.extension {
        Some(e) => "@"@ + e@,
        None => Seq::empty(),
    }
}

impl GradleSpecifier {
    /// Reads a coordinate `group:artifact:version[:classifier][@extension]`;
    /// text of any other shape is an error.
    pub fn parse(s: &str) -> (r: Result<GradleSpecifier, Error>)
        ensures
            match r {
                Ok(g) => coordinate_shape_ok(s@) && parsed_as(g, s@),
                Err(Error::InvalidGradleSpecifier(t)) => !coordinate_shape_ok(s@) && t@ == s@,
                Err(_) => false,
            },
    {
        let at = split_at_char(s, '@');
        proof {
            lemma_split_nonempty(s@, '@');
        }
        if at.len() > 2 {
            return Err(Error::InvalidGradleSpecifier(s.to_owned()));
        }
        let parts = split_at_char(at[0].as_str(), ':');
        proof {
            assert(views(at@)[0] == at@[0]@);
        }
        if parts.len() < 3 || parts.len() > 4 {
            return Err(Error::InvalidGradleSpecifier(s.to_owned()));
        }
        proof {
            assert(views(parts@)[0] == parts@[0]@);
            assert(views(parts@)[1] == parts@[1]@);
            assert(views(parts@)[2] == parts@[2]@);
        }
        let classifier = if parts.len() == 4 {
            proof {
                assert(views(parts@)[3] == parts@[3]@);
            }
            Some(parts[3].clone())
        } else {
            None
        };
        let extension = if at.len() == 2 {
            proof {
                assert(views(at@)[1] == at@[1]@);
            }
            Some(at[1].clone())
        } else {
            None
        };
        Ok(
            GradleSpecifier {
                group: parts[0].clone(),
                artifact: parts[1].clone(),
                version: parts[2].clone(),
                classifier,
                extension,
            },
        )
    }

    /// Writes this coordinate as `group:artifact:version[:classifier][@extension]`.
    pub fn to_coordinate(&self) -> (r: String)
        ensures
            r@ == rendered(*self),
    {
        let mut s = self.group.clone();
        s.append(":");
        s.append(self.artifact.as_str());
        s.append(":");
        s.append(self.version.as_str());
        let ghost before_classifier = s@;
        match &self.classifier {
            Some(c) => {
                s.append(":");
                s.append(c.as_str());
            },
            None => {},
        }
        proof {
            assert(s@ =~= before_classifier + match self.classifier {
                Some(c) => ":"@ + c@,
                None => Seq::empty(),
            });
        }
        let ghost before_extension = s@;
        match &self.extension {
            Some(e) => {
                s.append("@");
                s.append(e.as_str());
            },
            None => {},
        }
        proof {
            assert(s@ =~= before_extension + match self.extension {
                Some(e) => "@"@ + e@,
                None => Seq::empty(),
            });
        }
        s
    }
}

/// The parts of `g` hold no separator: no `:` or `@` before the extension,
/// and no `@` in it.
pub open spec fn coordinate_wf(g: GradleSpecifier) -> bool {
    &&& free_of(g.group@, ':') && free_of(g.group@, '@')
    &&& free_of(g.artifact@, ':') && free_of(g.artifact@, '@')
    &&& free_of(g.version@, ':') && free_of(g.version@, '@')
    &&& (g.classifier matches Some(c) ==> free_of(c@, ':') && free_of(c@, '@'))
    &&& (g.extension matches Some(e) ==> free_of(e@, '@'))
}

/// Writing a coordinate whose parts hold no separator and reading it back
/// gives the same parts.
pub proof fn lemma_coordinate_round_trip(g: GradleSpecifier)
    requires
        coordinate_wf(g),
    ensures
        coordinate_shape_ok(rendered(g)),
        parsed_as(g, rendered(g)),
{
    reveal_strlit(":");
    reveal_strlit("@");
    assert(":"@ =~= seq![':']);
    assert(seq!['@'] =~= "@"@);
    let tail: Seq<char> = match g.classifier {
        Some(c) => seq![':'] + c@,
        None => Seq::empty(),
    };
    let v_tail = g.version@ + tail;
    let body = g.group@ + seq![':'] + (g.artifact@ + seq![':'] + v_tail);
    assert(body =~= g.group@ + ":"@ + g.artifact@ + ":"@ + g.version@ + match g.classifier {
        Some(c) => ":"@ + c@,
        None => Seq::empty(),
    });
    // pieces at ':'
    lemma_split_single(g.group@, ':');
    lemma_split_single(g.artifact@, ':');
    lemma_split_single(g.version@, ':');
    lemma_split_join(g.group@, g.artifact@ + seq![':'] + v_tail, ':');
    lemma_split_join(g.artifact@, v_tail, ':');
    match g.classifier {
        Some(c) => {
            assert(v_tail =~= g.version@ + seq![':'] + c@);
            lemma_split_single(c@, ':');
            lemma_split_join(g.version@, c@, ':');
            assert(split(body, ':') =~= seq![g.group@, g.artifact@, g.version@, c@]);
        },
        None => {
            assert(v_tail =~= g.version@);
            assert(split(body, ':') =~= seq![g.group@, g.artifact@, g.version@]);
        },
    }
    // pieces at '@'
    assert(free_of(body, '@'));
    lemma_split_single(body, '@');
    match g.extension {
        Some(e) => {
            assert(rendered(g) =~= body + seq!['@'] + e@);
            lemma_split_single(e@, '@');
            lemma_split_join(body, e@, '@');
            assert(split(rendered(g), '@') =~= seq![body, e@]);
        },
        None => {
            assert(rendered(g) =~= body);
        },
    }
}

} // verus!
