//! Reading program output: the display size that `adb shell wm size` prints,
//! its width and height, and the address of the iOS preview URL.
use vstd::prelude::*;

use crate::error::DeviceError;
use crate::text::{chars_of, string_of, trim, trimmed};

verus! {

/// The index of the first `c` in `s`, or `s.len()` when `s` holds no `c`.
pub open spec fn position_of(s: Seq<char>, c: char) -> int
    decreases s.len(),
{
    if s.len() == 0 {
        0
    } else if s[0] == c {
        0
    } else {
        1 + position_of(s.drop_first(), c)
    }
}

/// The index of the last `c` in `s`, or `-1` when `s` holds no `c`.
pub open spec fn last_position_of(s: Seq<char>, c: char) -> int
    decreases s.len(),
{
    if s.len() == 0 {
        -1
    } else if s.last() == c {
        s.len() - 1
    } else {
        last_position_of(s.drop_last(), c)
    }
}

/// The display size in `wm size` output: on the first line (lines end at
/// `\n`) that holds a space, the trimmed text after its last space.
pub open spec fn display_size_in(text: Seq<char>) -> Option<Seq<char>>
    decreases text.len(),
{
    let end = position_of(text, '\n');
    let line = text.take(end);
    let space = last_position_of(line, ' ');
    if space >= 0 {
        Some(trimmed(line.skip(space + 1)))
    } else if 0 <= end < text.len() {
        display_size_in(text.skip(end + 1))
    } else {
        None
    }
}

/// The width and height text of a `<width>x<height>` display size, split at
/// its first `x`; `None` when it holds no `x`.
pub open spec fn size_parts(dimensions: Seq<char>) -> Option<(Seq<char>, Seq<char>)> {
    let x = position_of(dimensions, 'x');
    if x < dimensions.len() {
        Some((dimensions.take(x), dimensions.skip(x + 1)))
    } else {
        None
    }
}

/// The `host:port` address of an `http://host:port[/...]` URL: the text
/// after `http://` up to the first `/`, when it holds a `:`.
pub open spec fn preview_host(url: Seq<char>) -> Option<Seq<char>> {
    if url.len() >= 7 && url.take(7) == "http://"@ {
        let rest = url.skip(7);
        let host = rest.take(position_of(rest, '/'));
        if host.contains(':') {
            Some(host)
        } else {
            None
        }
    } else {
        None
    }
}

/// What characterizes `position_of`.
pub proof fn lemma_position_of(s: Seq<char>, c: char)
    ensures
        0 <= position_of(s, c) <= s.len(),
        position_of(s, c) < s.len() ==> s[position_of(s, c)] == c,
        forall|j: int| 0 <= j < position_of(s, c) ==> s[j] != c,
    decreases s.len(),
{
    if s.len() > 0 && s[0] != c {
        lemma_position_of(s.drop_first(), c);
        assert forall|j: int| 0 <= j < position_of(s, c) implies s[j] != c by {
            if j > 0 {
                assert(s[j] == s.drop_first()[j - 1]);
            }
        }
    }
}

/// What characterizes `last_position_of`.
pub proof fn lemma_last_position_of(s: Seq<char>, c: char)
    ensures
        -1 <= last_position_of(s, c) < s.len(),
        last_position_of(s, c) >= 0 ==> s[last_position_of(s, c)] == c,
        forall|j: int| last_position_of(s, c) < j < s.len() ==> s[j] != c,
    decreases s.len(),
{
    if s.len() > 0 && s.last() != c {
        lemma_last_position_of(s.drop_last(), c);
        assert forall|j: int| last_position_of(s, c) < j < s.len() implies s[j] != c by {
            if j < s.len() - 1 {
                assert(s[j] == s.drop_last()[j]);
            }
        }
    }
}

/// The index of the first `c` in `chars[from..to]`, or `to`.
fn find_char(chars: &Vec<char>, from: usize, to: usize, c: char) -> (index: usize)
    requires
        from <= to <= chars.len(),
    ensures
        index - from == position_of(chars@.subrange(from as int, to as int), c),
        from <= index <= to,
{
    let mut i = from;
    while i < to && chars[i] != c
        invariant
            from <= i <= to <= chars.len(),
            forall|j: int| from <= j < i ==> chars@[j] != c,
        decreases to - i,
    {
        i = i + 1;
    }
    proof {
        let s = chars@.subrange(from as int, to as int);
        lemma_position_of(s, c);
        let p = position_of(s, c);
        if p < i - from {
            assert(s[p] == chars@[from + p]);
        }
        if i - from < p {
            assert(s[i - from] == chars@[i as int]);
        }
    }
    i
}

/// One past the index of the last `c` in `chars[from..to]`, or `from`.
fn find_last_char(chars: &Vec<char>, from: usize, to: usize, c: char) -> (after: usize)
    requires
        from <= to <= chars.len(),
    ensures
        after - from - 1 == last_position_of(chars@.subrange(from as int, to as int), c),
        from <= after <= to,
{
    let mut k = to;
    while k > from && chars[k - 1] != c
        invariant
            from <= k <= to <= chars.len(),
            forall|j: int| k <= j < to ==> chars@[j] != c,
        decreases k,
    {
        k = k - 1;
    }
    proof {
        let s = chars@.subrange(from as int, to as int);
        lemma_last_position_of(s, c);
        let p = last_position_of(s, c);
        if p > k - from - 1 {
            assert(s[p] == chars@[from + p]);
        }
        if k - from - 1 > p {
            assert(s[k - from - 1] == chars@[k - 1]);
        }
    }
    k
}

/// The display size that `adb shell wm size` printed, if any line holds one.
pub fn display_dimensions(output: &str) -> (dimensions: Option<String>)
    ensures
        dimensions.deep_view() == display_size_in(output@),
{
    let chars = chars_of(output);
    let n = chars.len();
    let mut start: usize = 0;
    assert(chars@.skip(0) =~= chars@);
    loop
        invariant
            n == chars.len(),
            chars@ == output@,
            start <= n,
            display_size_in(chars@) == display_size_in(chars@.skip(start as int)),
        decreases n - start,
    {
        let end = find_char(&chars, start, n, '\n');
        let after_space = find_last_char(&chars, start, end, ' ');
        let ghost rest = chars@.skip(start as int);
        assert(chars@.subrange(start as int, n as int) =~= rest);
        let ghost line = rest.take(end - start);
        assert(chars@.subrange(start as int, end as int) =~= line);
        if after_space > start {
            let value = string_of(&chars, after_space, end);
            let dimensions = trim(value.as_str());
            assert(line.skip(after_space - start) =~= chars@.subrange(
                after_space as int,
                end as int,
            ));
            return Some(dimensions);
        } else if end < n {
            assert(rest.skip(end - start + 1) =~= chars@.skip(end + 1));
            start = end + 1;
        } else {
            return None;
        }
    }
}

/// Splits a display size into its width and height text at the first `x`.
pub fn parse_display_size(dimensions: &str) -> (r: Result<(String, String), DeviceError>)
    ensures
        match size_parts(dimensions@) {
            Some((width, height)) => r matches Ok((w, h)) && w@ == width && h@ == height,
            None => r matches Err(DeviceError::InvalidDisplaySize { dimensions: d }) && d@
                == dimensions@,
        },
{
    let chars = chars_of(dimensions);
    let n = chars.len();
    let x = find_char(&chars, 0, n, 'x');
    assert(chars@.subrange(0, n as int) =~= chars@);
    if x < n {
        let width = string_of(&chars, 0, x);
        let height = string_of(&chars, x + 1, n);
        assert(chars@.subrange(0, x as int) =~= chars@.take(x as int));
        assert(chars@.subrange(x + 1, n as int) =~= chars@.skip(x + 1));
        Ok((width, height))
    } else {
        Err(DeviceError::InvalidDisplaySize { dimensions: dimensions.to_owned() })
    }
}

/// The `host:port` address to wait for, from an `http://host:port` preview URL.
pub fn preview_address(url: &str) -> (address: Option<String>)
    ensures
        address.deep_view() == preview_host(url@),
{
    proof {
        reveal_strlit("http://");
    }
    let chars = chars_of(url);
    let n = chars.len();
    let http = n >= 7 && chars[0] == 'h' && chars[1] == 't' && chars[2] == 't' && chars[3] == 'p'
        && chars[4] == ':' && chars[5] == '/' && chars[6] == '/';
    assert(http <==> (url@.len() >= 7 && url@.take(7) == "http://"@)) by {
        if url@.len() >= 7 && url@.take(7) == "http://"@ {
            assert(url@.take(7)[0] == 'h');
            assert(url@.take(7)[1] == 't');
            assert(url@.take(7)[2] == 't');
            assert(url@.take(7)[3] == 'p');
            assert(url@.take(7)[4] == ':');
            assert(url@.take(7)[5] == '/');
            assert(url@.take(7)[6] == '/');
        }
        if http {
            assert(url@.take(7) =~= "http://"@);
        }
    }
    if !http {
        return None;
    }
    let slash = find_char(&chars, 7, n, '/');
    assert(chars@.subrange(7, n as int) =~= url@.skip(7));
    let colon = find_char(&chars, 7, slash, ':');
    proof {
        let host = chars@.subrange(7, slash as int);
        assert(host =~= url@.skip(7).take(slash - 7));
        lemma_position_of(host, ':');
        if host.contains(':') {
            let j = choose|j: int| 0 <= j < host.len() && host[j] == ':';
            assert(position_of(host, ':') <= j);
        }
    }
    if colon < slash {
        Some(string_of(&chars, 7, slash))
    } else {
        None
    }
}

} // verus!
