//! Filtering enumerated pipe names by a shell-style glob pattern.

use vstd::prelude::*;

verus! {

/// One enumerated Windows named pipe.
#[derive(Debug, Clone)]
pub struct EnumeratedPipe {
    /// The pipe's name, without the `\\.\pipe\` prefix.
    pub name: String,
}

#[verifier::external_type_specification]
#[verifier::external_body]
pub struct ExPattern(glob::Pattern);

#[verifier::external_type_specification]
#[verifier::external_body]
pub struct ExPatternError(glob::PatternError);

/// Whether `glob::Pattern::new` accepts the pattern text; it depends on
/// the text alone.
pub uninterp spec fn glob_pattern_ok(pattern: Seq<char>) -> bool;

/// Whether `glob::Pattern::matches` matches the name against the pattern;
/// it depends on the two texts alone.
pub uninterp spec fn glob_matches(pattern: Seq<char>, name: Seq<char>) -> bool;

/// Relies on `glob::Pattern::new`: compiling succeeds or fails on the
/// pattern text alone.
#[verifier::external_body]
fn compile_pattern(pattern: &str) -> (r: Result<glob::Pattern, glob::PatternError>)
    ensures
        r is Ok <==> glob_pattern_ok(pattern@),
{
    glob::Pattern::new(pattern)
}

/// Relies on `glob::Pattern::new` and `glob::Pattern::matches`: for a
/// pattern text that compiles, whether a name matches depends on the
/// pattern text and the name alone.
#[verifier::external_body]
fn match_pattern(pattern: &str, name: &str) -> (r: bool)
    requires
        glob_pattern_ok(pattern@),
    ensures
        r == glob_matches(pattern@, name@),
{
    match glob::Pattern::new(pattern) {
        Ok(p) => p.matches(name),
        Err(_) => false,
    }
}

/// The pipes whose names match the pattern, in their original order.
pub open spec fn spec_filter_pipes(pipes: Seq<EnumeratedPipe>, pattern: Seq<char>) -> Seq<
    EnumeratedPipe,
>
    decreases pipes.len(),
{
    if pipes.len() == 0 {
        Seq::empty()
    } else {
        let rest = spec_filter_pipes(pipes.drop_last(), pattern);
        if glob_matches(pattern, pipes.last().name@) {
            rest.push(pipes.last())
        } else {
            rest
        }
    }
}

/// Narrows a pipe list by an optional glob pattern: no pattern keeps the
/// list as it is; an invalid pattern is refused even when the list is
/// empty; a valid one keeps exactly the matching pipes, in order.
pub fn filter_pipes(pipes: Vec<EnumeratedPipe>, pattern: Option<&str>) -> (r: Result<
    Vec<EnumeratedPipe>,
    glob::PatternError,
>)
    ensures
        match pattern {
            None => r matches Ok(kept) && kept@ == pipes@,
            Some(p) => {
                &&& r is Ok <==> glob_pattern_ok(p@)
                &&& (r matches Ok(kept) ==> kept@ == spec_filter_pipes(pipes@, p@))
            },
        },
{
    match pattern {
        None => Ok(pipes),
        Some(pattern_str) => {
            match compile_pattern(pattern_str) {
                Err(e) => Err(e),
                Ok(_) => {
                    let mut kept: Vec<EnumeratedPipe> = Vec::new();
                    let mut i: usize = 0;
                    while i < pipes.len()
                        invariant
                            i <= pipes@.len(),
                            glob_pattern_ok(pattern_str@),
                            kept@ == spec_filter_pipes(pipes@.take(i as int), pattern_str@),
                        decreases pipes@.len() - i,
                    {
                        if match_pattern(pattern_str, pipes[i].name.as_str()) {
                            let item = EnumeratedPipe { name: pipes[i].name.clone() };
                            proof {
                                assert(item == pipes@[i as int]);
                            }
                            kept.push(item);
                        }
                        proof {
                            assert(pipes@.take(i + 1 as int).drop_last() =~= pipes@.take(i as int));
                            assert(pipes@.take(i + 1 as int).last() == pipes@[i as int]);
                        }
                        i = i + 1;
                    }
                    proof {
                        assert(pipes@.take(pipes@.len() as int) =~= pipes@);
                    }
                    Ok(kept)
                },
            }
        },
    }
}

} // verus!
