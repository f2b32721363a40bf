use leo_ast::ast::{
    Span, Identifier, Char, CharValue, PositiveNumber, Type, IntegerType, GroupCoordinate,
    GroupTuple, GroupValue, ValueExpression, BinaryOperation, BinaryExpression, UnaryOperation,
    UnaryExpression, TernaryExpression, CastExpression, ArrayAccess, ArrayRangeAccess,
    MemberAccess, TupleAccess, StaticAccess, SpreadOrExpression, ArrayInlineExpression,
    ArrayInitExpression, TupleInitExpression, CircuitVariableInitializer, CircuitInitExpression,
    Expression, CallExpression,
    ExpressionStatement, ReturnStatement, Statement, Block, ConditionalStatement, Declare,
    VariableName, DefinitionStatement, Assignee, AssignOperation, AssignStatement,
    IterationStatement, ConsoleArgs, ConsoleFunction, ConsoleStatement, FunctionInputVariable,
    FunctionInput, ImportTree, ImportStatement, Annotation, CircuitMember, Circuit, Alias,
    Function, Program,
};
use leo_ast::reducer::{default_binary, default_conditional, default_string, ReconstructingReducer};
use leo_ast::director::{reduce, ReconstructingDirector};
use leo_ast::passes::{DefaultReducer, RenameReducer, FailOnCallReducer};

fn sp(lo: u64, hi: u64) -> Span {
    Span { lo, hi }
}

fn ident(name: u32, lo: u64, hi: u64) -> Identifier {
    Identifier { name, span: sp(lo, hi) }
}

fn lit(text: &str, lo: u64, hi: u64) -> Expression {
    Expression::Value(ValueExpression::Implicit(String::from(text), sp(lo, hi)))
}

fn ident_expr(name: u32, lo: u64, hi: u64) -> Expression {
    Expression::Identifier(ident(name, lo, hi))
}

fn binary(left: Expression, right: Expression, op: BinaryOperation, lo: u64, hi: u64) -> Expression {
    Expression::Binary(BinaryExpression {
        left: Box::new(left),
        right: Box::new(right),
        op,
        span: sp(lo, hi),
    })
}

fn call(callee: Expression, arguments: Vec<Expression>, lo: u64, hi: u64) -> Expression {
    Expression::Call(CallExpression {
        function: Box::new(callee),
        arguments,
        span: sp(lo, hi),
    })
}

fn one_plus_two() -> Expression {
    binary(lit("1", 0, 1), lit("2", 4, 5), BinaryOperation::Add, 0, 5)
}

fn sample_block() -> Block {
    let def = Statement::Definition(DefinitionStatement {
        declaration_type: Declare::Let,
        variable_names: vec![VariableName { mutable: true, identifier: ident(10, 20, 21), span: sp(20, 21) }],
        parened: false,
        type_: Type::Integer(IntegerType::U32),
        value: lit("3", 24, 25),
        span: sp(18, 25),
    });
    let assign = Statement::Assign(Box::new(AssignStatement {
        operation: AssignOperation::Add,
        assignee: Assignee { identifier: ident(10, 26, 27), accesses: vec![], span: sp(26, 27) },
        value: lit("4", 30, 31),
        span: sp(26, 31),
    }));
    let cond = Statement::Conditional(ConditionalStatement {
        condition: ident_expr(10, 35, 36),
        block: Block { statements: vec![], span: sp(37, 39) },
        next: None,
        span: sp(33, 39),
    });
    let iter = Statement::Iteration(Box::new(IterationStatement {
        variable: ident(11, 44, 45),
        type_: Type::Integer(IntegerType::U8),
        start: lit("0", 48, 49),
        stop: lit("9", 51, 52),
        inclusive: false,
        block: Block { statements: vec![], span: sp(53, 55) },
        span: sp(40, 55),
    }));
    let console = Statement::Console(ConsoleStatement {
        function: ConsoleFunction::Log(ConsoleArgs {
            string: vec![Char::Scalar('o'), Char::Scalar('k')],
            parameters: vec![ident_expr(10, 60, 61)],
            span: sp(56, 62),
        }),
        span: sp(56, 63),
    });
    let ret = Statement::Return(ReturnStatement { expression: ident_expr(10, 70, 71), span: sp(64, 71) });
    Block { statements: vec![def, assign, cond, iter, console, ret], span: sp(16, 73) }
}

fn sample_function(name: u32) -> Function {
    Function {
        identifier: ident(name, 0, 3),
        annotations: vec![(77, Annotation { span: sp(0, 1), name: ident(77, 0, 1), arguments: vec![5, 6] })],
        input: vec![
            FunctionInput::InputKeyword(ident(40, 4, 9)),
            FunctionInput::Variable(FunctionInputVariable {
                identifier: ident(41, 10, 11),
                const_: false,
                mutable: true,
                type_: Type::Field,
                span: sp(10, 17),
            }),
        ],
        const_: false,
        output: Type::Tuple(vec![Type::Boolean, Type::Char]),
        block: sample_block(),
        core_mapping: Some(9),
        span: sp(0, 75),
    }
}

fn sample_program() -> Program {
    let nested = Program {
        name: String::from("nested"),
        expected_input: vec![],
        import_statements: vec![],
        imports: vec![],
        aliases: vec![],
        circuits: vec![],
        functions: vec![(ident(30, 0, 3), sample_function(30))],
        global_consts: vec![],
    };
    Program {
        name: String::from("main"),
        expected_input: vec![FunctionInput::SelfKeyword(ident(50, 0, 4))],
        import_statements: vec![ImportStatement {
            tree: ImportTree { base: vec![1, 2], alias: Some(ident(3, 7, 8)), span: sp(0, 8) },
            span: sp(0, 9),
        }],
        imports: vec![(vec![1, 2], nested)],
        aliases: vec![
            (ident(60, 0, 1), Alias { name: ident(60, 0, 1), represents: Type::Group, span: sp(0, 5) }),
            (ident(61, 6, 7), Alias {
                name: ident(61, 6, 7),
                represents: Type::Array(Box::new(Type::Field), vec![PositiveNumber { value: 4 }]),
                span: sp(6, 12),
            }),
        ],
        circuits: vec![(ident(70, 0, 2), Circuit {
            circuit_name: ident(70, 0, 2),
            members: vec![
                CircuitMember::CircuitVariable(ident(71, 3, 4), Type::Boolean),
                CircuitMember::CircuitFunction(Box::new(sample_function(72))),
            ],
        })],
        functions: vec![(ident(31, 0, 3), sample_function(31)), (ident(32, 0, 3), sample_function(32))],
        global_consts: vec![(vec![ident(90, 0, 1)], DefinitionStatement {
            declaration_type: Declare::Const,
            variable_names: vec![VariableName { mutable: false, identifier: ident(90, 0, 1), span: sp(0, 1) }],
            parened: false,
            type_: Type::Integer(IntegerType::I64),
            value: lit("7", 4, 5),
            span: sp(0, 5),
        })],
    }
}

#[test]
fn identity_on_binary_literal_sum() {
    let mut director = ReconstructingDirector::new(DefaultReducer::new());
    let input = one_plus_two();
    let out = director.reduce_expression(&input).unwrap();
    assert_eq!(out, one_plus_two());
    match out {
        Expression::Binary(b) => {
            assert_eq!(b.span, sp(0, 5));
            assert_eq!(b.op, BinaryOperation::Add);
            assert_eq!(*b.left, lit("1", 0, 1));
            assert_eq!(*b.right, lit("2", 4, 5));
        },
        _ => panic!("expected a binary node"),
    }
}

#[test]
fn identity_on_whole_program() {
    let input = sample_program();
    let out = reduce(&input, DefaultReducer::new()).unwrap();
    assert_eq!(out, sample_program());
}

#[test]
fn program_aggregates_keep_keys_and_order() {
    let input = sample_program();
    let out = reduce(&input, DefaultReducer::new()).unwrap();
    let in_again = sample_program();
    let import_keys: Vec<&Vec<u32>> = out.imports.iter().map(|e| &e.0).collect();
    let import_keys_in: Vec<&Vec<u32>> = in_again.imports.iter().map(|e| &e.0).collect();
    assert_eq!(import_keys, import_keys_in);
    let alias_keys: Vec<Identifier> = out.aliases.iter().map(|e| e.0).collect();
    let alias_keys_in: Vec<Identifier> = in_again.aliases.iter().map(|e| e.0).collect();
    assert_eq!(alias_keys, alias_keys_in);
    let circuit_keys: Vec<Identifier> = out.circuits.iter().map(|e| e.0).collect();
    assert_eq!(circuit_keys, in_again.circuits.iter().map(|e| e.0).collect::<Vec<_>>());
    let function_keys: Vec<Identifier> = out.functions.iter().map(|e| e.0).collect();
    assert_eq!(function_keys, in_again.functions.iter().map(|e| e.0).collect::<Vec<_>>());
    let const_keys: Vec<&Vec<Identifier>> = out.global_consts.iter().map(|e| &e.0).collect();
    assert_eq!(const_keys, in_again.global_consts.iter().map(|e| &e.0).collect::<Vec<_>>());
}

#[test]
fn default_rules_copy_the_span_verbatim() {
    let orig = BinaryExpression {
        left: Box::new(lit("1", 10, 11)),
        right: Box::new(lit("2", 14, 15)),
        op: BinaryOperation::Mul,
        span: sp(10, 15),
    };
    let rebuilt = default_binary(&orig, lit("9", 0, 1), lit("8", 2, 3), BinaryOperation::Mul);
    assert_eq!(rebuilt.span, sp(10, 15));

    let cond = ConditionalStatement {
        condition: ident_expr(1, 3, 4),
        block: Block { statements: vec![], span: sp(5, 7) },
        next: None,
        span: sp(0, 7),
    };
    let rebuilt = default_conditional(
        &cond,
        ident_expr(1, 3, 4),
        Block { statements: vec![], span: sp(5, 7) },
        None,
    );
    assert_eq!(rebuilt.span, sp(0, 7));
}

#[test]
fn string_literal_folds_into_a_value_expression() {
    let chars = [Char::Scalar('h'), Char::NonScalar(955)];
    let out = default_string(&chars, &sp(2, 6));
    assert_eq!(
        out,
        Expression::Value(ValueExpression::Str(vec![Char::Scalar('h'), Char::NonScalar(955)], sp(2, 6)))
    );
}

#[test]
fn absent_else_branch_stays_absent() {
    let cond = ConditionalStatement {
        condition: ident_expr(1, 3, 4),
        block: Block { statements: vec![], span: sp(5, 7) },
        next: None,
        span: sp(0, 7),
    };
    let mut director = ReconstructingDirector::new(DefaultReducer::new());
    let out = director.reduce_conditional(&cond).unwrap();
    assert!(out.next.is_none());

    let with_else = ConditionalStatement {
        next: Some(Box::new(Statement::Block(Block { statements: vec![], span: sp(8, 10) }))),
        ..cond
    };
    let out = director.reduce_conditional(&with_else).unwrap();
    assert!(out.next.is_some());
}

#[test]
fn optional_range_bounds_keep_their_absence() {
    let node = ArrayRangeAccess {
        array: Box::new(ident_expr(5, 0, 1)),
        left: None,
        right: Some(Box::new(lit("3", 4, 5))),
        span: sp(0, 6),
    };
    let mut director = ReconstructingDirector::new(DefaultReducer::new());
    let out = director.reduce_array_range_access(&node).unwrap();
    assert!(out.left.is_none());
    assert_eq!(out.right, Some(Box::new(lit("3", 4, 5))));
    assert_eq!(out.span, sp(0, 6));
}

#[test]
fn rename_rewrites_every_matching_leaf_and_nothing_else() {
    let x = 1u32;
    let y = 2u32;
    // x + (x * x)
    let input = binary(
        ident_expr(x, 0, 1),
        binary(ident_expr(x, 5, 6), ident_expr(x, 9, 10), BinaryOperation::Mul, 4, 11),
        BinaryOperation::Add,
        0,
        11,
    );
    let expected = binary(
        ident_expr(y, 0, 1),
        binary(ident_expr(y, 5, 6), ident_expr(y, 9, 10), BinaryOperation::Mul, 4, 11),
        BinaryOperation::Add,
        0,
        11,
    );
    let mut director = ReconstructingDirector::new(RenameReducer::new(x, y));
    let out = director.reduce_expression(&input).unwrap();
    assert_eq!(out, expected);
}

#[test]
fn rename_leaves_sibling_subtrees_untouched() {
    let x = 1u32;
    let y = 2u32;
    let z = 3u32;
    // (x + 5) * (z * 7)
    let sibling = binary(ident_expr(z, 9, 10), lit("7", 13, 14), BinaryOperation::Mul, 8, 15);
    let input = binary(
        binary(ident_expr(x, 1, 2), lit("5", 5, 6), BinaryOperation::Add, 0, 7),
        sibling,
        BinaryOperation::Mul,
        0,
        15,
    );
    let mut director = ReconstructingDirector::new(RenameReducer::new(x, y));
    let out = director.reduce_expression(&input).unwrap();
    match out {
        Expression::Binary(b) => {
            assert_eq!(
                *b.left,
                binary(ident_expr(y, 1, 2), lit("5", 5, 6), BinaryOperation::Add, 0, 7)
            );
            assert_eq!(
                *b.right,
                binary(ident_expr(z, 9, 10), lit("7", 13, 14), BinaryOperation::Mul, 8, 15)
            );
        },
        _ => panic!("expected a binary node"),
    }
}

#[test]
fn failing_left_child_short_circuits_the_binary() {
    let forbidden = 9u32;
    let left = call(ident_expr(forbidden, 0, 9), vec![lit("1", 10, 11)], 0, 12);
    let input = binary(left, ident_expr(4, 15, 16), BinaryOperation::Add, 0, 16);
    let mut director = ReconstructingDirector::new(FailOnCallReducer::new(forbidden));
    let out = director.reduce_expression(&input);
    assert_eq!(out.unwrap_err().span, sp(0, 12));
    // only the callee identifier was ever handed to the protocol: the right
    // operand was never reduced and the binary hook never ran
    assert_eq!(director.reducer.visited_identifiers, 1);
    assert_eq!(director.reducer.binary_hooks, 0);
}

#[test]
fn forbidden_call_aborts_the_block_before_later_statements() {
    let forbidden = 9u32;
    let stmt1 = Statement::Expression(ExpressionStatement {
        expression: call(ident_expr(forbidden, 0, 9), vec![lit("1", 10, 11)], 0, 12),
        span: sp(0, 13),
    });
    let stmt2 = Statement::Return(ReturnStatement { expression: ident_expr(4, 21, 22), span: sp(14, 22) });
    let block = Block { statements: vec![stmt1, stmt2], span: sp(0, 24) };
    let mut director = ReconstructingDirector::new(FailOnCallReducer::new(forbidden));
    let out = director.reduce_block(&block);
    assert_eq!(out.unwrap_err().span, sp(0, 12));
    assert_eq!(director.reducer.visited_identifiers, 1);
}

#[test]
fn succeeding_call_is_reassembled() {
    let forbidden = 9u32;
    let input = call(ident_expr(4, 0, 1), vec![lit("1", 2, 3)], 0, 4);
    let mut director = ReconstructingDirector::new(FailOnCallReducer::new(forbidden));
    let out = director.reduce_expression(&input).unwrap();
    assert_eq!(out, call(ident_expr(4, 0, 1), vec![lit("1", 2, 3)], 0, 4));
}

#[test]
fn group_value_round_trips() {
    let gv = GroupValue::Tuple(GroupTuple {
        x: GroupCoordinate::Number(3, sp(1, 2)),
        y: GroupCoordinate::SignHigh,
        span: sp(0, 5),
    });
    let input = Expression::Value(ValueExpression::Group(Box::new(gv)));
    let mut director = ReconstructingDirector::new(DefaultReducer::new());
    let out = director.reduce_expression(&input).unwrap();
    assert_eq!(out, Expression::Value(ValueExpression::Group(Box::new(gv))));
}

#[test]
fn circuit_context_bit_toggles() {
    let mut reducer = DefaultReducer::new();
    assert!(!reducer.in_circuit());
    reducer.swap_in_circuit();
    assert!(reducer.in_circuit());
    reducer.swap_in_circuit();
    assert!(!reducer.in_circuit());
}

#[test]
fn static_access_type_is_assignable_after_construction() {
    let mut node = StaticAccess {
        inner: Box::new(ident_expr(7, 0, 1)),
        name: ident(8, 2, 3),
        type_: Type::SelfType,
        span: sp(0, 3),
    };
    node.assign_type(Type::Field);
    assert_eq!(node.type_, Type::Field);
    assert_eq!(node.name, ident(8, 2, 3));
    assert_eq!(node.span, sp(0, 3));
}

#[test]
fn unary_identity_keeps_operator_and_span() {
    let input = Expression::Unary(UnaryExpression {
        inner: Box::new(ident_expr(3, 1, 2)),
        op: UnaryOperation::Negate,
        span: sp(0, 2),
    });
    let mut director = ReconstructingDirector::new(DefaultReducer::new());
    let out = director.reduce_expression(&input).unwrap();
    assert_eq!(out, Expression::Unary(UnaryExpression {
        inner: Box::new(ident_expr(3, 1, 2)),
        op: UnaryOperation::Negate,
        span: sp(0, 2),
    }));
}

fn jumbo_expression() -> Expression {
    // one expression containing every expression kind
    let value_kinds = vec![
        SpreadOrExpression::Spread(Expression::Value(ValueExpression::Address(
            String::from("aleo1qnr"),
            sp(100, 108),
        ))),
        SpreadOrExpression::Expression(Expression::Value(ValueExpression::Boolean(true, sp(109, 113)))),
        SpreadOrExpression::Expression(Expression::Value(ValueExpression::Char(CharValue {
            character: Char::Scalar('q'),
            span: sp(114, 117),
        }))),
        SpreadOrExpression::Expression(Expression::Value(ValueExpression::Field(
            String::from("11"),
            sp(118, 120),
        ))),
        SpreadOrExpression::Expression(Expression::Value(ValueExpression::Integer(
            IntegerType::I16,
            String::from("-4"),
            sp(121, 123),
        ))),
        SpreadOrExpression::Expression(Expression::Value(ValueExpression::Str(
            vec![Char::Scalar('a'), Char::Scalar('b')],
            sp(124, 128),
        ))),
    ];
    let inline = Expression::ArrayInline(ArrayInlineExpression {
        elements: value_kinds,
        span: sp(98, 130),
    });
    let array_init = Expression::ArrayInit(ArrayInitExpression {
        element: Box::new(inline),
        dimensions: vec![PositiveNumber { value: 2 }, PositiveNumber { value: 3 }],
        span: sp(96, 132),
    });
    let ternary = Expression::Ternary(TernaryExpression {
        condition: Box::new(ident_expr(21, 0, 1)),
        if_true: Box::new(array_init),
        if_false: Box::new(Expression::Cast(CastExpression {
            inner: Box::new(lit("0", 140, 141)),
            target_type: Type::Integer(IntegerType::U64),
            span: sp(140, 148),
        })),
        span: sp(0, 150),
    });
    let access = Expression::ArrayAccess(ArrayAccess {
        array: Box::new(ternary),
        index: Box::new(lit("1", 151, 152)),
        span: sp(0, 153),
    });
    let range = Expression::ArrayRangeAccess(ArrayRangeAccess {
        array: Box::new(access),
        left: Some(Box::new(lit("0", 154, 155))),
        right: None,
        span: sp(0, 156),
    });
    let member = Expression::MemberAccess(MemberAccess {
        inner: Box::new(range),
        name: ident(22, 157, 158),
        span: sp(0, 159),
        type_: Some(Type::Boolean),
    });
    let tuple_access = Expression::TupleAccess(TupleAccess {
        tuple: Box::new(member),
        index: PositiveNumber { value: 0 },
        span: sp(0, 161),
    });
    let static_access = Expression::StaticAccess(StaticAccess {
        inner: Box::new(tuple_access),
        name: ident(23, 162, 163),
        type_: Type::SelfType,
        span: sp(0, 164),
    });
    let tuple_init = Expression::TupleInit(TupleInitExpression {
        elements: vec![static_access, ident_expr(24, 165, 166)],
        span: sp(0, 168),
    });
    let circuit_init = Expression::CircuitInit(CircuitInitExpression {
        name: ident(25, 169, 170),
        members: vec![
            CircuitVariableInitializer { identifier: ident(26, 171, 172), expression: Some(tuple_init) },
            CircuitVariableInitializer { identifier: ident(27, 173, 174), expression: None },
        ],
        span: sp(0, 176),
    });
    let unary = Expression::Unary(UnaryExpression {
        inner: Box::new(circuit_init),
        op: UnaryOperation::Not,
        span: sp(0, 178),
    });
    call(unary, vec![Expression::Value(ValueExpression::Group(Box::new(GroupValue::Single(8, sp(180, 181)))))], 0, 183)
}

#[test]
fn identity_on_every_expression_kind() {
    let input = jumbo_expression();
    let mut director = ReconstructingDirector::new(DefaultReducer::new());
    let out = director.reduce_expression(&input).unwrap();
    assert_eq!(out, jumbo_expression());
}

#[test]
fn failure_inside_a_function_aborts_the_whole_program_reduction() {
    let forbidden = 9u32;
    let mut program = sample_program();
    let poisoned = Statement::Expression(ExpressionStatement {
        expression: call(ident_expr(forbidden, 200, 209), vec![], 200, 211),
        span: sp(200, 212),
    });
    program.functions[0].1.block.statements.insert(0, poisoned);
    let out = reduce(&program, FailOnCallReducer::new(forbidden));
    assert_eq!(out.unwrap_err().span, sp(200, 211));
}

#[test]
fn scoped_circuit_context_restores_the_prior_value() {
    let mut reducer = DefaultReducer::new();
    assert!(!reducer.in_circuit());
    let prior = reducer.enter_circuit();
    assert!(!prior);
    assert!(reducer.in_circuit());
    // a nested scope, already inside circuit context
    let inner = reducer.enter_circuit();
    assert!(inner);
    reducer.swap_in_circuit();
    reducer.restore_circuit(inner);
    assert!(reducer.in_circuit());
    reducer.restore_circuit(prior);
    assert!(!reducer.in_circuit());
}

#[test]
fn non_forbidden_call_hook_returns_the_default_reassembly() {
    let mut reducer = FailOnCallReducer::new(9);
    let out = reducer
        .reduce_call(
            &CallExpression {
                function: Box::new(ident_expr(4, 0, 1)),
                arguments: vec![lit("1", 2, 3)],
                span: sp(0, 4),
            },
            ident_expr(4, 0, 1),
            vec![lit("1", 2, 3)],
        )
        .unwrap();
    assert_eq!(*out.function, ident_expr(4, 0, 1));
    assert_eq!(out.arguments, vec![lit("1", 2, 3)]);
    assert_eq!(out.span, sp(0, 4));
}
