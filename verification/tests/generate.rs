use glue_gen::c_shim::get_c_file_content;
use glue_gen::cfunc::CFunction;
use glue_gen::cparam::CParameter;
use glue_gen::java_stub::get_java_file_content;
use glue_gen::mode::{c_file_name, java_file_name};
use glue_gen::report::c_info_source;

fn function(return_type: &str, name: &str, parameters: Vec<CParameter>) -> CFunction {
    let mut f = CFunction::new();
    f.return_type = return_type.to_string();
    f.name = name.to_string();
    f.parameters = parameters;
    f
}

fn add() -> CFunction {
    function(
        "int",
        "add",
        vec![CParameter::new("a", "int", 0, 0), CParameter::new("b", "int", 0, 0)],
    )
}

fn mixed() -> CFunction {
    function(
        "void",
        "fill",
        vec![
            CParameter::new("buf", "struct rec", 1, 24),
            CParameter::new("flag", "char", 0, 1),
            CParameter::new("count", "unsigned short", 1, 2),
            CParameter::new("raw", "long", 0, 8),
        ],
    )
}

#[test]
fn java_stub_of_add() {
    let expected = "import jp.osscons.opensourcecobol.libcobj.data.CobolDataStorage;\n\
public class add extends CobolRunnableCGlue {\n\
\x20 public native void add(int a, int b);\n\
\x20 static { System.loadLibrary(\"add\"); }\n\
\x20 @Override\n\
\x20 public int run(CobolDataStorage... argStorages) {\n\
\x20   add(storageToInt(argStorages[0]), storageToInt(argStorages[1]));\n\
\x20   return 0;\n\
\x20 }\n\
}\n";
    assert_eq!(get_java_file_content(&add()), expected);
}

#[test]
fn c_shim_of_add() {
    let expected = "#include \"add.h\"\n\
extern int add(int, int);\n\
JNIEXPORT void JNICALL Java_add_add\n\
(JNIEnv *env , jobject object, jint a, jint b)\n\
{\n\
\x20 int oc4j_glue_a = a;\n\
\x20 int oc4j_glue_b = b;\n\
\x20 add(oc4j_glue_a, oc4j_glue_b);\n\
}\n";
    assert_eq!(get_c_file_content(&add()), expected);
}

#[test]
fn java_stub_with_buffers() {
    let expected = "import jp.osscons.opensourcecobol.libcobj.data.CobolDataStorage;\n\
public class fill extends CobolRunnableCGlue {\n\
\x20 public native void fill(byte[] buf, byte flag, short count, byte[] raw);\n\
\x20 static { System.loadLibrary(\"fill\"); }\n\
\x20 @Override\n\
\x20 public int run(CobolDataStorage... argStorages) {\n\
\x20   byte[] buf = storageToByteArray(argStorages[0], 24);\n\
\x20   byte[] raw = storageToByteArray(argStorages[3], 8);\n\
\x20   fill(buf, storageToByte(argStorages[1]), storageToShort(argStorages[2]), raw);\n\
\x20   bytesToStorage(argStorages[0], buf);\n\
\x20   bytesToStorage(argStorages[3], raw);\n\
\x20   return 0;\n\
\x20 }\n\
}\n";
    assert_eq!(get_java_file_content(&mixed()), expected);
}

#[test]
fn c_shim_with_pointer_and_buffers() {
    let expected = "#include \"fill.h\"\n\
extern void fill(struct rec*, char, unsigned short*, long);\n\
JNIEXPORT void JNICALL Java_fill_fill\n\
(JNIEnv *env , jobject object, jbyteArray buf, jbyte flag, jshort count, jbyteArray raw)\n\
{\n\
// Generatoin code for Byte Array not implemented\n\
\x20 char oc4j_glue_flag = flag;\n\
\x20 short oc4j_glue_count = count;\n\
// Generatoin code for Byte Array not implemented\n\
\x20 fill(, oc4j_glue_flag, &oc4j_glue_count, );\n\
}\n";
    assert_eq!(get_c_file_content(&mixed()), expected);
}

#[test]
fn stubs_of_a_function_without_parameters() {
    let f = function("unsigned int", "tick", vec![]);
    let java = get_java_file_content(&f);
    assert!(java.contains("  public native void tick();\n"));
    assert!(java.contains("    tick();\n    return 0;\n"));
    let c = get_c_file_content(&f);
    assert!(c.contains("extern unsigned int tick();\n"));
    assert!(c.contains("(JNIEnv *env , jobject object)\n{\n  tick();\n}\n"));
}

#[test]
fn c_shim_writes_one_star_per_level() {
    let f = function("void", "deep", vec![CParameter::new("p", "int", 2, 0)]);
    let c = get_c_file_content(&f);
    assert!(c.contains("extern void deep(int**);\n"));
    assert!(c.contains("  deep(oc4j_glue_p);\n"));
}

#[test]
fn java_stub_numbers_with_several_digits() {
    let mut parameters = Vec::new();
    for i in 0..12 {
        parameters.push(CParameter::new(&format!("p{}", i), "int", 0, 0));
    }
    parameters.push(CParameter::new("blob", "struct big", 0, 4294967295));
    let java = get_java_file_content(&function("void", "many", parameters));
    assert!(java.contains("storageToInt(argStorages[9]), storageToInt(argStorages[10]), "));
    assert!(java.contains("    byte[] blob = storageToByteArray(argStorages[12], 4294967295);\n"));
    assert!(java.contains("    bytesToStorage(argStorages[12], blob);\n"));
}

#[test]
fn generation_is_repeatable() {
    assert_eq!(get_java_file_content(&mixed()), get_java_file_content(&mixed()));
    assert_eq!(get_c_file_content(&mixed()), get_c_file_content(&mixed()));
    assert_eq!(c_info_source(&vec![add(), mixed()]), c_info_source(&vec![add(), mixed()]));
}

#[test]
fn report_of_no_function() {
    let expected = "#include <stdio.h>\n\
int main() {\n\
\x20 printf(\"functions:\\n\");\n\
\x20 return 0;\n\
}\n";
    assert_eq!(c_info_source(&Vec::new()), expected);
}

#[test]
fn report_of_a_function_with_a_pointer() {
    let f = function(
        "int",
        "scale",
        vec![CParameter::new("v", "struct vec", 1, 0), CParameter::new("k", "int", 0, 0)],
    );
    let expected = "#include <stdio.h>\n\
int main() {\n\
\x20 printf(\"functions:\\n\");\n\
\x20 printf(\"  - func_name: scale\\n\");\n\
\x20 printf(\"    return_type: int\\n\");\n\
\x20 printf(\"    parameters:\\n\");\n\
\x20 printf(\"      - var_name: v\\n\");\n\
\x20 printf(\"        type_name: struct vec\\n\");\n\
\x20 printf(\"        pointer_depth: 1\\n\");\n\
\x20 printf(\"        type_size: %lu\\n\", sizeof(struct vec*));\n\
\x20 printf(\"      - var_name: k\\n\");\n\
\x20 printf(\"        type_name: int\\n\");\n\
\x20 printf(\"        pointer_depth: 0\\n\");\n\
\x20 printf(\"        type_size: %lu\\n\", sizeof(int));\n\
\x20 return 0;\n\
}\n";
    assert_eq!(c_info_source(&vec![f]), expected);
}

#[test]
fn file_names_follow_the_function() {
    assert_eq!(java_file_name(&add()), "add.java");
    assert_eq!(c_file_name(&add()), "add.c");
}
