//! The options model and the build-file generator: a pure function from a
//! validated `GeneratorOptions` value to the complete Makefile text.

use vstd::prelude::*;

use crate::input::spec_is_lang_token;
use crate::input::spec_is_standard_token;
use crate::text::str_eq;

verus! {

/// The target language of the scaffolded project.
#[derive(Clone, Copy, PartialEq, Eq, Structural, Debug)]
pub enum Language {
    C,
    Cpp,
}

/// The compiler executable that each language uses.
pub open spec fn spec_compiler(lang: Language) -> Seq<char> {
    match lang {
        Language::C => "clang"@,
        Language::Cpp => "clang++"@,
    }
}

/// The source-file extension of each language.
pub open spec fn spec_extension(lang: Language) -> Seq<char> {
    match lang {
        Language::C => "c"@,
        Language::Cpp => "cpp"@,
    }
}

/// The language that a valid language token denotes: "c" means C, and the
/// two tokens "cpp" and "c++" both mean C++.
pub open spec fn spec_language_of(token: Seq<char>) -> Language {
    if token == "c"@ {
        Language::C
    } else {
        Language::Cpp
    }
}

impl Language {
    pub fn get_compiler(&self) -> (r: &str)
        ensures
            r@ == spec_compiler(*self),
    {
        match self {
            Language::C => "clang",
            Language::Cpp => "clang++",
        }
    }

    pub fn get_extension(&self) -> (r: &str)
        ensures
            r@ == spec_extension(*self),
    {
        match self {
            Language::C => "c",
            Language::Cpp => "cpp",
        }
    }

    /// Constructing a language from an unrecognized token is a contract
    /// violation, so callers must validate the token first.
    pub fn from_token(token: &str) -> (r: Language)
        requires
            spec_is_lang_token(token@),
        ensures
            r == spec_language_of(token@),
    {
        if str_eq(token, "c") {
            Language::C
        } else {
            Language::Cpp
        }
    }
}

/// A resolved compiler standard flag, held as an opaque flag string.
pub struct StdLibOption {
    pub value: String,
}

/// What a raw standard token resolves to: the sentinel "latest" becomes the
/// language-specific newest-standard flag; any other token is kept unchanged.
pub open spec fn spec_resolved_standard(is_cpp: bool, standard: Seq<char>) -> Seq<char> {
    if standard == "latest"@ {
        if is_cpp {
            "-std=c++26"@
        } else {
            "-std=c23"@
        }
    } else {
        standard
    }
}

impl StdLibOption {
    /// Resolve a raw standard token for the chosen language.
    pub fn from_parts(is_cpp: bool, standard: String) -> (r: Self)
        ensures
            r.value@ == spec_resolved_standard(is_cpp, standard@),
    {
        if str_eq(standard.as_str(), "latest") {
            if is_cpp {
                StdLibOption { value: "-std=c++26".to_owned() }
            } else {
                StdLibOption { value: "-std=c23".to_owned() }
            }
        } else {
            StdLibOption { value: standard }
        }
    }
}

/// The four possible directory layouts, one per combination of the two
/// independent use-source / use-include answers.
#[derive(Clone, Copy, PartialEq, Eq, Structural, Debug)]
pub enum DirectoryOptions {
    UseNeither,
    UseSource,
    UseInclude,
    UseBoth,
}

/// The include-path flag of a layout: "-Iinclude" when the layout uses an
/// include directory, empty otherwise.
pub open spec fn spec_include_flag(dirs: DirectoryOptions) -> Seq<char> {
    match dirs {
        DirectoryOptions::UseNeither => ""@,
        DirectoryOptions::UseSource => ""@,
        DirectoryOptions::UseInclude => "-Iinclude"@,
        DirectoryOptions::UseBoth => "-Iinclude"@,
    }
}

/// The source-directory prefix of a layout: "src/" when the layout uses a
/// source directory, empty otherwise.
pub open spec fn spec_source_prefix(dirs: DirectoryOptions) -> Seq<char> {
    match dirs {
        DirectoryOptions::UseNeither => ""@,
        DirectoryOptions::UseSource => "src/"@,
        DirectoryOptions::UseInclude => ""@,
        DirectoryOptions::UseBoth => "src/"@,
    }
}

/// The layout variant that a pair of directory answers denotes.
pub open spec fn spec_dirs_from_flags(use_src: bool, use_include: bool) -> DirectoryOptions {
    if use_src {
        if use_include {
            DirectoryOptions::UseBoth
        } else {
            DirectoryOptions::UseSource
        }
    } else {
        if use_include {
            DirectoryOptions::UseInclude
        } else {
            DirectoryOptions::UseNeither
        }
    }
}

impl DirectoryOptions {
    /// Write the layout's include-path flag and source-directory prefix into
    /// the two out-parameters: exactly one of four fixed pairs.
    pub fn get_paths(&self, inc: &mut &str, src: &mut &str)
        ensures
            (*final(inc))@ == spec_include_flag(*self),
            (*final(src))@ == spec_source_prefix(*self),
    {
        match self {
            DirectoryOptions::UseNeither => {
                *inc = "";
                *src = "";
            }
            DirectoryOptions::UseSource => {
                *inc = "";
                *src = "src/";
            }
            DirectoryOptions::UseInclude => {
                *inc = "-Iinclude";
                *src = "";
            }
            DirectoryOptions::UseBoth => {
                *inc = "-Iinclude";
                *src = "src/";
            }
        }
    }

    /// The layout variant for a pair of directory answers.
    pub fn from_flags(use_src: bool, use_include: bool) -> (r: Self)
        ensures
            r == spec_dirs_from_flags(use_src, use_include),
    {
        match (use_src, use_include) {
            (false, false) => DirectoryOptions::UseNeither,
            (true, false) => DirectoryOptions::UseSource,
            (false, true) => DirectoryOptions::UseInclude,
            (true, true) => DirectoryOptions::UseBoth,
        }
    }
}

/// The validated, immutable description of what to generate.
pub struct GeneratorOptions {
    pub stdlib: StdLibOption,
    pub lang: Language,
    pub dirs: DirectoryOptions,
    pub libraries: Vec<String>,
    pub name: String,
}

/// How an ordered library list renders as linker flags: each name prefixed
/// with "-l", the tokens space-joined in input order, with no trailing space;
/// the empty list renders as the empty string.
pub open spec fn spec_linker_flags(libs: Seq<String>) -> Seq<char>
    decreases libs.len(),
{
    if libs.len() == 0 {
        Seq::<char>::empty()
    } else if libs.len() == 1 {
        "-l"@ + libs[0]@
    } else {
        spec_linker_flags(libs.drop_last()) + " "@ + "-l"@ + libs.last()@
    }
}

impl GeneratorOptions {
    /// Build the options model from already-validated primitives: a non-empty
    /// project name, a valid language token, and a standard token that is
    /// either "latest" or already flag-prefixed. The library list is passed
    /// through verbatim, duplicates and all.
    pub fn new(
        proj_name: String,
        use_src: bool,
        use_include: bool,
        lang: String,
        standard: String,
        libraries: Vec<String>,
    ) -> (r: Self)
        requires
            proj_name@.len() > 0,
            spec_is_lang_token(lang@),
            spec_is_standard_token(standard@),
        ensures
            r.name == proj_name,
            r.lang == spec_language_of(lang@),
            r.dirs == spec_dirs_from_flags(use_src, use_include),
            r.stdlib.value@ == spec_resolved_standard(
                lang@ == "cpp"@ || lang@ == "c++"@,
                standard@,
            ),
            r.libraries == libraries,
    {
        let is_cpp = str_eq(lang.as_str(), "cpp") || str_eq(lang.as_str(), "c++");
        GeneratorOptions {
            dirs: DirectoryOptions::from_flags(use_src, use_include),
            stdlib: StdLibOption::from_parts(is_cpp, standard),
            libraries,
            lang: Language::from_token(lang.as_str()),
            name: proj_name,
        }
    }

    /// Render the library list as a single linker-flags string.
    pub fn get_libraries(&self) -> (r: String)
        ensures
            r@ == spec_linker_flags(self.libraries@),
    {
        let mut out = String::new();
        let n = self.libraries.len();
        let mut i: usize = 0;
        while i < n
            invariant
                n == self.libraries.len(),
                i <= n,
                out@ == spec_linker_flags(self.libraries@.take(i as int)),
            decreases n - i,
        {
            proof {
                assert(self.libraries@.take(i + 1 as int).drop_last() =~= self.libraries@.take(
                    i as int,
                ));
                assert(self.libraries@.take(i + 1 as int).last() == self.libraries@[i as int]);
            }
            if i == 0 {
                out.append("-l");
                out.append(self.libraries[i].as_str());
                proof {
                    assert(out@ =~= spec_linker_flags(self.libraries@.take(i + 1 as int)));
                }
            } else {
                out.append(" ");
                out.append("-l");
                out.append(self.libraries[i].as_str());
            }
            i = i + 1;
        }
        proof {
            assert(self.libraries@.take(n as int) =~= self.libraries@);
        }
        out
    }
}

/// The combined compiler-flags string: standard flag and include flag
/// space-joined, with empty parts collapsed away.
pub open spec fn spec_compiler_flags(std_flag: Seq<char>, inc_flag: Seq<char>) -> Seq<char> {
    if std_flag.len() == 0 {
        inc_flag
    } else if inc_flag.len() == 0 {
        std_flag
    } else {
        std_flag + " "@ + inc_flag
    }
}

/// The source match pattern: rooted under "src/" when the layout uses a
/// source directory, at the project root otherwise.
pub open spec fn spec_source_pattern(dirs: DirectoryOptions, ext: Seq<char>) -> Seq<char> {
    if dirs == DirectoryOptions::UseBoth || dirs == DirectoryOptions::UseSource {
        "src/%."@ + ext
    } else {
        "%."@ + ext
    }
}

/// The variables block up to and including the "LD_FLAGS := " prefix; the
/// linker-flags string follows it.
pub open spec fn spec_vars_head(o: GeneratorOptions) -> Seq<char> {
    "PRJ_NAME := "@ + o.name@ + "\nCOMPILER := "@ + spec_compiler(o.lang)
        + "\nCOMPILER_FLAGS := "@ + spec_compiler_flags(
        o.stdlib.value@,
        spec_include_flag(o.dirs),
    ) + "\nLD_FLAGS := "@
}

/// The rest of the variables block, from the line after the linker flags to
/// the closing parenthesis of the source wildcard expression.
pub open spec fn spec_vars_tail(o: GeneratorOptions) -> Seq<char> {
    "\nSRC_EXT_PAT := "@ + spec_source_pattern(o.dirs, spec_extension(o.lang))
        + "\nOBJ_DIR := obj\nREL_OBJ_DIR := obj/release\nDBG_OBJ_DIR := obj/debug\nREL_BIN_DIR := bin/release\nDBG_BIN_DIR := bin/debug\nBIN_DIR := bin\nSRCS := $(wildcard "@
        + spec_source_prefix(o.dirs) + "*."@ + spec_extension(o.lang) + ")"@
}

/// The fixed rule block: object lists, directory creation, the debug and
/// release link rules, the per-profile compile rules, clean, run and
/// run-release. Recipe lines are tab-indented, as the build tool demands.
pub open spec fn spec_rules_block() -> Seq<char> {
    "REL_OBJS := $(patsubst $(SRC_EXT_PAT), $(REL_OBJ_DIR)/%.o, $(SRCS))\nDBG_OBJS := $(patsubst $(SRC_EXT_PAT), $(DBG_OBJ_DIR)/%.o, $(SRCS))\n\nall: directories $(PRJ_NAME)\n\ndirectories:\n\tmkdir -p $(REL_OBJ_DIR) $(DBG_OBJ_DIR) $(DBG_BIN_DIR) $(REL_BIN_DIR)\n\n$(PRJ_NAME): $(DBG_OBJS)\n\t$(COMPILER) $(COMPILER_FLAGS) -g -o $(DBG_BIN_DIR)/$(PRJ_NAME) $^ $(LD_FLAGS)\n\nrelease: $(REL_OBJS)\n\t$(COMPILER) $(COMPILER_FLAGS) -O3 -o $(REL_BIN_DIR)/$(PRJ_NAME) $^ $(LD_FLAGS)\n\n$(REL_OBJ_DIR)/%.o: $(SRC_EXT_PAT)\n\t$(COMPILER) $(COMPILER_FLAGS) -c $< -o $@\n\n$(DBG_OBJ_DIR)/%.o: $(SRC_EXT_PAT)\n\t$(COMPILER) $(COMPILER_FLAGS) -c $< -o $@\n\nclean:\n\trm -rf $(OBJ_DIR) $(BIN_DIR)\n\nrun: all $(PRJ_NAME)\n\t./$(DBG_BIN_DIR)/$(PRJ_NAME)\n\nrun-release: directories release\n\t./$(REL_BIN_DIR)/$(PRJ_NAME)"@
}

/// The complete build-file text for a request: the variables block, a blank
/// line, then the fixed rule block.
pub open spec fn spec_makefile(o: GeneratorOptions) -> Seq<char> {
    spec_vars_head(o) + spec_linker_flags(o.libraries@) + spec_vars_tail(o) + "\n\n"@
        + spec_rules_block()
}

/// Render the complete build-file text for a request. Pure and total: the
/// result is exactly the spec-level rendering of the options.
pub fn generate_makefile(options: &GeneratorOptions) -> (r: String)
    ensures
        r@ == spec_makefile(*options),
{
    let compiler = options.lang.get_compiler();
    let ext = options.lang.get_extension();

    let mut inc: &str = "";
    let mut src_dir: &str = "";
    options.dirs.get_paths(&mut inc, &mut src_dir);

    let libs_formatted = options.get_libraries();

    let mut cflags: String;
    if options.stdlib.value.as_str().is_empty() {
        cflags = inc.to_owned();
    } else {
        cflags = options.stdlib.value.clone();
        if !inc.is_empty() {
            cflags.append(" ");
            cflags.append(inc);
        }
    }

    let mut pattern: String = if options.dirs == DirectoryOptions::UseBoth || options.dirs
        == DirectoryOptions::UseSource {
        "src/%.".to_owned()
    } else {
        "%.".to_owned()
    };
    pattern.append(ext);

    let mut out: String = "PRJ_NAME := ".to_owned();
    out.append(options.name.as_str());
    out.append("\nCOMPILER := ");
    out.append(compiler);
    out.append("\nCOMPILER_FLAGS := ");
    out.append(cflags.as_str());
    out.append("\nLD_FLAGS := ");
    out.append(libs_formatted.as_str());

    let mut tail: String = "\nSRC_EXT_PAT := ".to_owned();
    tail.append(pattern.as_str());
    tail.append(
        "\nOBJ_DIR := obj\nREL_OBJ_DIR := obj/release\nDBG_OBJ_DIR := obj/debug\nREL_BIN_DIR := bin/release\nDBG_BIN_DIR := bin/debug\nBIN_DIR := bin\nSRCS := $(wildcard ",
    );
    tail.append(src_dir);
    tail.append("*.");
    tail.append(ext);
    tail.append(")");

    out.append(tail.as_str());
    out.append("\n\n");
    out.append(makefile_str());
    out
}

/// The fixed rule block of every generated build file.
pub fn makefile_str() -> (r: &'static str)
    ensures
        r@ == spec_rules_block(),
{
    "REL_OBJS := $(patsubst $(SRC_EXT_PAT), $(REL_OBJ_DIR)/%.o, $(SRCS))\nDBG_OBJS := $(patsubst $(SRC_EXT_PAT), $(DBG_OBJ_DIR)/%.o, $(SRCS))\n\nall: directories $(PRJ_NAME)\n\ndirectories:\n\tmkdir -p $(REL_OBJ_DIR) $(DBG_OBJ_DIR) $(DBG_BIN_DIR) $(REL_BIN_DIR)\n\n$(PRJ_NAME): $(DBG_OBJS)\n\t$(COMPILER) $(COMPILER_FLAGS) -g -o $(DBG_BIN_DIR)/$(PRJ_NAME) $^ $(LD_FLAGS)\n\nrelease: $(REL_OBJS)\n\t$(COMPILER) $(COMPILER_FLAGS) -O3 -o $(REL_BIN_DIR)/$(PRJ_NAME) $^ $(LD_FLAGS)\n\n$(REL_OBJ_DIR)/%.o: $(SRC_EXT_PAT)\n\t$(COMPILER) $(COMPILER_FLAGS) -c $< -o $@\n\n$(DBG_OBJ_DIR)/%.o: $(SRC_EXT_PAT)\n\t$(COMPILER) $(COMPILER_FLAGS) -c $< -o $@\n\nclean:\n\trm -rf $(OBJ_DIR) $(BIN_DIR)\n\nrun: all $(PRJ_NAME)\n\t./$(DBG_BIN_DIR)/$(PRJ_NAME)\n\nrun-release: directories release\n\t./$(REL_BIN_DIR)/$(PRJ_NAME)"
}

/// Generation is deterministic: any two results that the generator's
/// contract admits for one and the same request are byte-identical.
pub proof fn lemma_generation_deterministic(o: GeneratorOptions, r1: Seq<char>, r2: Seq<char>)
    requires
        r1 == spec_makefile(o),
        r2 == spec_makefile(o),
    ensures
        r1 == r2,
{
}

/// Every combination of the two directory answers yields a layout variant,
/// and its (include flag, source prefix) pair is exactly one of four fixed
/// pairs; no combination is left out.
pub proof fn lemma_directory_layout_exhaustive(use_src: bool, use_include: bool)
    ensures
        ({
            let dirs = spec_dirs_from_flags(use_src, use_include);
            ||| (spec_include_flag(dirs) == ""@ && spec_source_prefix(dirs) == ""@)
            ||| (spec_include_flag(dirs) == ""@ && spec_source_prefix(dirs) == "src/"@)
            ||| (spec_include_flag(dirs) == "-Iinclude"@ && spec_source_prefix(dirs) == ""@)
            ||| (spec_include_flag(dirs) == "-Iinclude"@ && spec_source_prefix(dirs) == "src/"@)
        }),
{
}

/// An empty library list renders as the empty linker-flags string.
pub proof fn lemma_empty_library_list_renders_empty(libs: Seq<String>)
    requires
        libs.len() == 0,
    ensures
        spec_linker_flags(libs) == Seq::<char>::empty(),
{
}

/// Appending one library to a list appends exactly one more "-l" token,
/// space-joined after a non-empty rendering: the rendering preserves input
/// order and never ends in a space.
pub proof fn lemma_linker_flags_append_one(libs: Seq<String>, lib: String)
    ensures
        libs.len() == 0 ==> spec_linker_flags(libs.push(lib)) == "-l"@ + lib@,
        libs.len() > 0 ==> spec_linker_flags(libs.push(lib)) == spec_linker_flags(libs) + " "@
            + "-l"@ + lib@,
{
    assert(libs.push(lib).drop_last() =~= libs);
    assert(libs.push(lib).last() == lib);
}

/// The sentinel "latest" resolves to the fixed newest-standard flag of the
/// chosen language; every other token is returned unchanged.
pub proof fn lemma_standard_resolution(is_cpp: bool, standard: Seq<char>)
    ensures
        standard == "latest"@ && is_cpp ==> spec_resolved_standard(is_cpp, standard)
            == "-std=c++26"@,
        standard == "latest"@ && !is_cpp ==> spec_resolved_standard(is_cpp, standard)
            == "-std=c23"@,
        standard != "latest"@ ==> spec_resolved_standard(is_cpp, standard) == standard,
{
}

/// When the layout includes a source directory the source match pattern is
/// rooted under "src/" and the wildcard scans "src/"; otherwise the pattern
/// and the wildcard both refer to the project root.
pub proof fn lemma_source_pattern_derivation(dirs: DirectoryOptions, ext: Seq<char>)
    ensures
        (dirs == DirectoryOptions::UseSource || dirs == DirectoryOptions::UseBoth)
            ==> spec_source_pattern(dirs, ext) == "src/%."@ + ext && spec_source_prefix(dirs)
            == "src/"@,
        !(dirs == DirectoryOptions::UseSource || dirs == DirectoryOptions::UseBoth)
            ==> spec_source_pattern(dirs, ext) == "%."@ + ext && spec_source_prefix(dirs) == ""@,
{
}

/// The rule block is one fixed template: two requests that differ only in
/// their library lists produce texts whose parts before and after the
/// linker-flags string are identical, and both end in the same rule block.
pub proof fn lemma_rule_block_independent_of_libraries(a: GeneratorOptions, b: GeneratorOptions)
    requires
        a.name@ == b.name@,
        a.lang == b.lang,
        a.dirs == b.dirs,
        a.stdlib.value@ == b.stdlib.value@,
    ensures
        spec_makefile(a) == spec_vars_head(a) + spec_linker_flags(a.libraries@) + spec_vars_tail(
            a,
        ) + "\n\n"@ + spec_rules_block(),
        spec_makefile(b) == spec_vars_head(b) + spec_linker_flags(b.libraries@) + spec_vars_tail(
            b,
        ) + "\n\n"@ + spec_rules_block(),
        spec_vars_head(a) == spec_vars_head(b),
        spec_vars_tail(a) == spec_vars_tail(b),
{
}

} // verus!
