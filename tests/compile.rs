use procon_input_compiler::codegen::Error;
use procon_input_compiler::names::Namer;
use procon_input_compiler::parse::ParseError;
use procon_input_compiler::{compile, CompileError, Lang};

const ALL: [Lang; 13] = [
    Lang::Python,
    Lang::Cpp,
    Lang::CppStream,
    Lang::Nim,
    Lang::Ruby,
    Lang::Java,
    Lang::JavaStream,
    Lang::CSharp,
    Lang::Rust,
    Lang::Kotlin,
    Lang::GoStream,
    Lang::Swift,
    Lang::Cpp11,
];

fn supports_tuples(lang: Lang) -> bool {
    !matches!(lang, Lang::Java | Lang::JavaStream | Lang::Kotlin | Lang::GoStream)
}

#[test]
fn int0_is_made_zero_based() {
    let out = compile(Lang::Python, "n: int0").unwrap();
    assert_eq!(out, "v0 = input().split()\nn = (int(v0[0:(0 + 1)][0])-1)");
}

#[test]
fn ranges_follow_each_other() {
    let out = compile(Lang::Python, "n: int, a: [int; n]").unwrap();
    assert_eq!(
        out,
        "v0 = input().split()\nn = int(v0[0:(0 + 1)][0])\na = [int(x) for x in v0[(0 + 1):((0 + 1) + n)]]"
    );
}

#[test]
fn list_reads_its_count_first() {
    let out = compile(Lang::Python, "a: [int]").unwrap();
    assert_eq!(out, "v0 = input().split()\nv1 = int(v0[0])\na = [int(x) for x in v0[(0+1):len(v0)]]");
    let out = compile(Lang::Ruby, "a: [int]").unwrap();
    assert_eq!(out, "v0 = gets.chomp.split\nv1 = v0[0].to_i\na = v0[(0+1)...v0.size].map { |x| x.to_i }");
    let out = compile(Lang::CSharp, "a: [int]").unwrap();
    assert_eq!(
        out,
        "var v0 = Console.ReadLine().Split(' ');\nvar v1 = v0.Length;\nint v2 = Convert.ToInt32(v0[0]);\nvar a = new List<int>();\nfor (int v3=0+1; v3<v1; v3++) {\n\tint v4 = Convert.ToInt32(v0[v3]);\n\ta.Add(v4);\n}"
    );
}

#[test]
fn matrix_rows_read_their_own_lines() {
    let out = compile(Lang::Python, "m: int\ne: [(int0, int0); m]").unwrap();
    assert_eq!(
        out,
        "v0 = input().split()\nm = int(v0[0:(0 + 1)][0])\ne = []\nfor _ in range(m):\n\tv1 = input().split()\n\tv3 = (int(v1[0:(0 + 1)][0])-1)\n\tv4 = (int(v1[(0 + 1):((0 + 1) + 1)][0])-1)\n\tv2 = (v3,v4)\n\te.append(v2)"
    );
}

#[test]
fn compiling_twice_gives_the_same_text() {
    let dsl = "n: int, m: int\na: [int; n]\ne: [(int0, int0, [str; 2]); m]\nb: [float]";
    for lang in ALL {
        let first = compile(lang, dsl);
        let second = compile(lang, dsl);
        assert_eq!(first, second);
    }
    assert_eq!(compile(Lang::Cpp, "n: int").unwrap(), compile(Lang::Cpp, "n: int").unwrap());
}

#[test]
fn wide_tuples_need_tuple_support() {
    for lang in ALL {
        let r = compile(lang, "m: int\ne: [(int0, int0); m]");
        if supports_tuples(lang) {
            assert!(r.is_ok());
        } else {
            assert_eq!(r, Err(CompileError::Codegen(Error::TupleNotSupported)));
        }
        let r = compile(lang, "t: (int, str)");
        if supports_tuples(lang) {
            assert!(r.is_ok());
        } else {
            assert_eq!(r, Err(CompileError::Codegen(Error::TupleNotSupported)));
        }
    }
}

#[test]
fn single_tuples_always_compile() {
    for lang in ALL {
        assert!(compile(lang, "t: ([int; 3])").is_ok());
        assert!(compile(lang, "m: int\ne: [(int); m]").is_ok());
    }
    assert_eq!(
        compile(Lang::Java, "t: (int)").unwrap(),
        "var v0 = input.readLine().split(\" \");\nvar v1 = v0.length;\nvar v2 = Integer.parseInt(v0[0]);\nvar t = v2;"
    );
}

#[test]
fn parse_errors_give_the_position() {
    assert_eq!(compile(Lang::Python, "n: integer"), Err(CompileError::Parse(ParseError { at: 6 })));
    assert_eq!(compile(Lang::Cpp, "n: [int; 3"), Err(CompileError::Parse(ParseError { at: 0 })));
}

#[test]
fn mixing_matrices_into_a_shared_line_is_rejected() {
    let dsl = "n: int, m: [[int; 2]; n]";
    assert_eq!(compile(Lang::Python, dsl), Err(CompileError::Codegen(Error::MixedLine)));
    assert_eq!(compile(Lang::Swift, dsl), Err(CompileError::Codegen(Error::MixedLine)));
    assert!(compile(Lang::CppStream, dsl).is_ok());
}

#[test]
fn empty_description_gives_empty_program() {
    for lang in ALL {
        assert_eq!(compile(lang, "").unwrap(), "");
    }
}

#[test]
fn fresh_names_count_up() {
    let mut names = Namer::new();
    assert_eq!(names.new_id(), "v0");
    assert_eq!(names.new_id(), "v1");
    for _ in 0..8 {
        names.new_id();
    }
    assert_eq!(names.new_id(), "v10");
    names.reset();
    assert_eq!(names.new_id(), "v0");
}

#[test]
fn cpp_stream_reads_with_cin() {
    assert_eq!(compile(Lang::CppStream, "n: int0").unwrap(), "int n;\nstd::cin >> n;\nn--;");
    assert_eq!(
        compile(Lang::CppStream, "a: [int; n]").unwrap(),
        "std::vector<int> a;\na.reserve(n);\nfor (int v0=0; v0<n; ++v0) {\n\tint v1;\n\tstd::cin >> v1;\n\ta.push_back(v1);\n}"
    );
}

#[test]
fn go_stream_list_reads_its_count_first() {
    assert_eq!(
        compile(Lang::GoStream, "a: [int]").unwrap(),
        "input.Scan()\nv0, _ := strconv.Atoi(input.Text())\na := make([]int, 0, v0)\nfor i := 0; i < v0; i++ {\n\tinput.Scan()\n\tv1, _ := strconv.Atoi(input.Text())\n\ta = append(a, v1)\n}"
    );
}

#[test]
fn java_stream_scalars() {
    assert_eq!(
        compile(Lang::JavaStream, "n: int, s: str, x: float, k: int0").unwrap(),
        "var n = input.nextInt();\nvar s = input.next();\nvar x = input.nextDouble();\nvar k = (input.nextInt()-1);"
    );
}

#[test]
fn cpp_line_buffer() {
    assert_eq!(
        compile(Lang::Cpp, "n: int").unwrap(),
        "std::vector<std::string> v0;\nstd::string v1; std::getline(std::cin, v1);\nstd::istringstream v3(v1); std::string v2;\nwhile (std::getline(v3, v2, ' ')) { v0.push_back(v2); }\nint v4 = v0.size();\nint n;\nn = atoi(v0[0].c_str());"
    );
}

#[test]
fn other_line_backends() {
    assert_eq!(
        compile(Lang::Nim, "n: int, s: str").unwrap(),
        "let v0 = readLine(stdin).split(' ')\nlet v1 = len(v0)\nlet n = v0[0].parseInt\nlet s = v0[(0 + 1)]"
    );
    assert_eq!(
        compile(Lang::Rust, "x: float").unwrap(),
        "let mut v1 = String::new();\ninput.read_line(&mut v1).unwrap();\nlet v0: Vec<&str> = v1.trim().split(' ').collect();\nlet v2 = v0.len();\nlet x = v0[0].parse::<f64>().unwrap();"
    );
    assert_eq!(
        compile(Lang::CSharp, "n: int0").unwrap(),
        "var v0 = Console.ReadLine().Split(' ');\nvar v1 = v0.Length;\nint n = (Convert.ToInt32(v0[0])-1);"
    );
    assert_eq!(
        compile(Lang::Kotlin, "s: str").unwrap(),
        "val v0 = readLine()!!.split(' ');\nval v1 = v0.size;\nval s: String = v0[0];"
    );
    assert_eq!(
        compile(Lang::Swift, "n: int").unwrap(),
        "let v0 = readLine()!.split(separator: \" \")\nlet v1 = v0.count\nlet n = Int(v0[0])!"
    );
    assert_eq!(
        compile(Lang::Ruby, "t: (int, str)").unwrap(),
        "v0 = gets.chomp.split\nv1 = v0[0].to_i\nv2 = v0[(0 + 1)]\nt = [v1, v2]"
    );
}

#[test]
fn cpp11_converts_with_string_streams() {
    assert_eq!(
        compile(Lang::Cpp11, "k: int0, a: [int0; 2]").unwrap(),
        "std::vector<std::string> v0;\nstd::string v1; std::getline(std::cin, v1);\nstd::istringstream v3(v1); std::string v2;\nwhile (std::getline(v3, v2, ' ')) { v0.push_back(v2); }\nint v4 = v0.size();\nint k;\nstd::istringstream v5(v0[0]);\nv5 >> k;\nk--;\nstd::vector<int> a;\nfor (int v6=(0 + 1); v6<((0 + 1) + 2); v6++) {\n\tint s; std::istringstream ss(v0[v6]); ss >> s; s--; a.push_back(s);\n}"
    );
}

#[test]
fn tuple_elements_tile_the_tuple_range() {
    assert_eq!(
        compile(Lang::Python, "t: (int, [int; n])").unwrap(),
        "v0 = input().split()\nv1 = int(v0[0:(0 + 1)][0])\nv2 = [int(x) for x in v0[(0 + 1):((0 + 1) + n)]]\nt = (v1,v2)"
    );
    assert_eq!(
        compile(Lang::CppStream, "t: (int, [int; n])").unwrap(),
        "int v0;\nstd::cin >> v0;\nstd::vector<int> v1;\nv1.reserve(n);\nfor (int v2=0; v2<n; ++v2) {\n\tint v3;\n\tstd::cin >> v3;\n\tv1.push_back(v3);\n}\nauto t = std::make_tuple(v0, v1);"
    );
}
