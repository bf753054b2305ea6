//! The files that bootstrap an mlc-llm server: a Python project that pulls
//! in mlc-llm, and a shell script that installs it once and starts it.

use vstd::prelude::*;

verus! {

/// The Python project whose dependencies are mlc-llm and its runtime.
pub const PYPROJECT: &'static str = r#"[project]
name = "mlc-serv"
license = { text = "Proprietary" }
version = "0.1.0"
requires-python = ">= 3.9, <= 3.12"
dependencies = [
    "fastapi",
    "mlc-llm-nightly-cu122 ; sys_platform != 'darwin'",
    "mlc-ai-nightly-cu122 ; sys_platform != 'darwin'",
    "mlc-llm-nightly ; sys_platform == 'darwin'",
    "mlc-ai-nightly ; sys_platform == 'darwin'",
]
"#;

/// The shell script that prepares a virtual environment for `python`,
/// installs the project there once per version, and runs `mlc_llm serve`
/// with the script's arguments.
pub open spec fn script_text(python: Seq<char>) -> Seq<char> {
    script_head() + python + script_middle() + python + script_tail()
}

/// The script's text before the first mention of the interpreter.
pub open spec fn script_head() -> Seq<char> {
    r#"#!/bin/bash

export PYTHON="#@
}

/// The script's text between the two mentions of the interpreter.
pub open spec fn script_middle() -> Seq<char> {
    r#"
export VERSION='"#@
}

/// The script's text after the second mention of the interpreter.
pub open spec fn script_tail() -> Seq<char> {
    r#"-0.2.4'
export VENV_PATH=~/.cache/mlc-venv-$PYTHON
export APP_PATH=~/.cache/mlc-app

# check $APP_PATH and $APP_PATH/placeholder exists
if ! [[ -d $APP_PATH && -f $APP_PATH/placeholder && "$(cat $APP_PATH/placeholder)" = "$VERSION" ]]; then
    if ! [[ -d $VENV_PATH ]]; then
        $PYTHON -m venv $VENV_PATH
    fi
	~/.cache/mlc-venv-$PYTHON/bin/pip3 install -U -f 'https://mlc.ai/wheels' . --target $APP_PATH
	echo -n $VERSION > $APP_PATH/placeholder
fi

cd $APP_PATH

# Lesson learned: Use exec so parent can kill python
exec $PYTHON -m mlc_llm serve $@
"#@
}

/// Writes the bootstrap script for the interpreter `python` (see
/// [`script_text`]).
pub fn script(python: &str) -> (s: String)
    ensures
        s@ == script_text(python@),
{
    let mut s = String::from_str(r#"#!/bin/bash

export PYTHON="#);
    s.append(python);
    s.append(r#"
export VERSION='"#);
    s.append(python);
    s.append(r#"-0.2.4'
export VENV_PATH=~/.cache/mlc-venv-$PYTHON
export APP_PATH=~/.cache/mlc-app

# check $APP_PATH and $APP_PATH/placeholder exists
if ! [[ -d $APP_PATH && -f $APP_PATH/placeholder && "$(cat $APP_PATH/placeholder)" = "$VERSION" ]]; then
    if ! [[ -d $VENV_PATH ]]; then
        $PYTHON -m venv $VENV_PATH
    fi
	~/.cache/mlc-venv-$PYTHON/bin/pip3 install -U -f 'https://mlc.ai/wheels' . --target $APP_PATH
	echo -n $VERSION > $APP_PATH/placeholder
fi

cd $APP_PATH

# Lesson learned: Use exec so parent can kill python
exec $PYTHON -m mlc_llm serve $@
"#);
    s
}

/// The script tells interpreters apart: different interpreters give
/// different scripts.
pub proof fn law_script_injective(a: Seq<char>, b: Seq<char>)
    requires
        script_text(a) == script_text(b),
    ensures
        a == b,
{
    let h = script_head().len() as int;
    let (m, t) = (script_middle().len() as int, script_tail().len() as int);
    assert(script_text(a).len() == h + a.len() + m + a.len() + t);
    assert(script_text(b).len() == h + b.len() + m + b.len() + t);
    assert(a.len() == b.len());
    assert forall|i: int| 0 <= i < a.len() implies a[i] == b[i] by {
        assert(script_text(a)[h + i] == a[i]);
        assert(script_text(b)[h + i] == b[i]);
    }
    assert(a =~= b);
}

/// The interpreter is written into the script twice, and the rest of the
/// script is the same for every interpreter.
pub proof fn law_script_frame(a: Seq<char>, b: Seq<char>)
    ensures
        script_text(a).len() == script_text(seq![]).len() + 2 * a.len(),
        script_text(a).take(script_head().len() as int) == script_text(b).take(
            script_head().len() as int,
        ),
        script_text(a).subrange(
            (script_head().len() + a.len()) as int,
            (script_head().len() + a.len() + script_middle().len()) as int,
        ) == script_text(b).subrange(
            (script_head().len() + b.len()) as int,
            (script_head().len() + b.len() + script_middle().len()) as int,
        ),
        script_text(a).skip(script_text(a).len() - script_tail().len()) == script_text(b).skip(
            script_text(b).len() - script_tail().len(),
        ),
{
    let (h, m) = (script_head().len() as int, script_middle().len() as int);
    assert(script_text(a).take(h) =~= script_head());
    assert(script_text(b).take(h) =~= script_head());
    assert(script_text(a).subrange(h + a.len(), h + a.len() + m) =~= script_middle());
    assert(script_text(b).subrange(h + b.len(), h + b.len() + m) =~= script_middle());
    assert(script_text(a).skip(script_text(a).len() - script_tail().len()) =~= script_tail());
    assert(script_text(b).skip(script_text(b).len() - script_tail().len()) =~= script_tail());
}

/// The script exports the interpreter as `PYTHON` and, with the suffix
/// `-0.2.4`, as the installed `VERSION`, on two consecutive lines.
pub proof fn law_script_exports(p: Seq<char>)
    ensures
        exists|k: int|
            0 <= k && #[trigger] script_text(p).subrange(
                k,
                k + ("export PYTHON="@ + p + "\nexport VERSION='"@ + p + "-0.2.4'\n"@).len(),
            ) == "export PYTHON="@ + p + "\nexport VERSION='"@ + p + "-0.2.4'\n"@,
{
    reveal_strlit(r#"#!/bin/bash

export PYTHON="#);
    reveal_strlit(r#"
export VERSION='"#);
    reveal_strlit(r#"-0.2.4'
export VENV_PATH=~/.cache/mlc-venv-$PYTHON
export APP_PATH=~/.cache/mlc-app

# check $APP_PATH and $APP_PATH/placeholder exists
if ! [[ -d $APP_PATH && -f $APP_PATH/placeholder && "$(cat $APP_PATH/placeholder)" = "$VERSION" ]]; then
    if ! [[ -d $VENV_PATH ]]; then
        $PYTHON -m venv $VENV_PATH
    fi
	~/.cache/mlc-venv-$PYTHON/bin/pip3 install -U -f 'https://mlc.ai/wheels' . --target $APP_PATH
	echo -n $VERSION > $APP_PATH/placeholder
fi

cd $APP_PATH

# Lesson learned: Use exec so parent can kill python
exec $PYTHON -m mlc_llm serve $@
"#);
    reveal_strlit("export PYTHON=");
    reveal_strlit("\nexport VERSION='");
    reveal_strlit("-0.2.4'\n");
    let line = "export PYTHON="@ + p + "\nexport VERSION='"@ + p + "-0.2.4'\n"@;
    let h = script_head().len() as int;
    let k = h - 14;
    assert(script_head().skip(k) =~= "export PYTHON="@);
    assert(script_middle() =~= "\nexport VERSION='"@);
    assert(script_tail().take(8) =~= "-0.2.4'\n"@);
    assert(script_text(p).subrange(k, k + line.len()) =~= line);
}

} // verus!
