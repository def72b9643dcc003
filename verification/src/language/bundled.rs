use crate::language::Language;
use vstd::prelude::*;

verus! {

/// C++, built with `g++`.
pub fn cpp() -> (language: Language)
    ensures
        language.compile_args matches Some(template) && template.deep_view() == seq![
            "g++"@,
            "-o"@,
            "{main}"@,
            "{main}.cpp"@,
        ],
        language.run_args.deep_view() == seq!["./{main}"@],
        language.extension@ == "cpp"@,
{
    let language = Language {
        compile_args: Some(&["g++", "-o", "{main}", "{main}.cpp"]),
        run_args: &["./{main}"],
        extension: "cpp",
    };
    assert(language.compile_args->0.deep_view() =~= seq!["g++"@, "-o"@, "{main}"@, "{main}.cpp"@]);
    assert(language.run_args.deep_view() =~= seq!["./{main}"@]);
    language
}

/// Rust, built with `rustc`.
pub fn rust() -> (language: Language)
    ensures
        language.compile_args matches Some(template) && template.deep_view() == seq![
            "rustc"@,
            "-O"@,
            "{main}.rs"@,
        ],
        language.run_args.deep_view() == seq!["./{main}"@],
        language.extension@ == "rs"@,
{
    let language = Language {
        compile_args: Some(&["rustc", "-O", "{main}.rs"]),
        run_args: &["./{main}"],
        extension: "rs",
    };
    assert(language.compile_args->0.deep_view() =~= seq!["rustc"@, "-O"@, "{main}.rs"@]);
    assert(language.run_args.deep_view() =~= seq!["./{main}"@]);
    language
}

/// Java, built with `javac` and started on the JVM.
pub fn java() -> (language: Language)
    ensures
        language.compile_args matches Some(template) && template.deep_view() == seq![
            "javac"@,
            "{main}.java"@,
        ],
        language.run_args.deep_view() == seq!["java"@, "{main}"@],
        language.extension@ == "java"@,
{
    let language = Language {
        compile_args: Some(&["javac", "{main}.java"]),
        run_args: &["java", "{main}"],
        extension: "java",
    };
    assert(language.compile_args->0.deep_view() =~= seq!["javac"@, "{main}.java"@]);
    assert(language.run_args.deep_view() =~= seq!["java"@, "{main}"@]);
    language
}

/// Python, interpreted.
pub fn python() -> (language: Language)
    ensures
        language.compile_args is None,
        language.run_args.deep_view() == seq!["python"@, "{main}.py"@],
        language.extension@ == "py"@,
{
    let language = Language { compile_args: None, run_args: &["python", "{main}.py"], extension: "py" };
    assert(language.run_args.deep_view() =~= seq!["python"@, "{main}.py"@]);
    language
}

/// JavaScript, interpreted by `bun`.
pub fn javascript() -> (language: Language)
    ensures
        language.compile_args is None,
        language.run_args.deep_view() == seq!["bun"@, "run"@, "{main}.js"@],
        language.extension@ == "js"@,
{
    let language = Language {
        compile_args: None,
        run_args: &["bun", "run", "{main}.js"],
        extension: "js",
    };
    assert(language.run_args.deep_view() =~= seq!["bun"@, "run"@, "{main}.js"@]);
    language
}

/// TypeScript, interpreted by `bun`.
pub fn typescript() -> (language: Language)
    ensures
        language.compile_args is None,
        language.run_args.deep_view() == seq!["bun"@, "run"@, "{main}.ts"@],
        language.extension@ == "ts"@,
{
    let language = Language {
        compile_args: None,
        run_args: &["bun", "run", "{main}.ts"],
        extension: "ts",
    };
    assert(language.run_args.deep_view() =~= seq!["bun"@, "run"@, "{main}.ts"@]);
    language
}

} // verus!
