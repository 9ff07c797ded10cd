//! The texts of each language.
use vstd::prelude::*;

use super::{I18n, Lang};

verus! {

/// The texts in the language Zh.
pub open spec fn texts_zh() -> I18n {
    I18n {
        about: "自动精简 Rust 源码中冗长的绝对路径为顶层 use，修复 clippy::absolute_paths",
        path: "待检查或处理的文件或目录路径（默认自动向上检索包含 Cargo.toml 的工程根目录）",
        dry_run: "试运行预览模式，仅检查输出，不实际修改文件（默认直接原地修改并格式化）",
        write: "原地修改文件并自动运行 rustfmt（默认开启）",
        check: "检查模式：发现需要简化的绝对路径时以非零状态码退出（用于 CI）",
        max_segments: "最大允许的路径段数，超过则触发简化（默认 2，与 clippy::absolute_paths 一致）",
        keep_segments: "简化后保留的路径段数（默认 1，即只保留最后一级；设为 2 则保留 module::item）",
        allow_crate: "允许保持绝对路径的 crate 白名单（如 std, core 等）",
        extra_crate: "显式指定的额外已知 crate 列表（用于补充或自定义依赖）",
        quiet: "安静模式，不输出修改明细（非交互终端默认开启）",
        show: "显示模式，强制输出修改明细（用于覆盖非交互环境下的默认安静模式）",
        verbose: "详细输出处理日志",
        no_cache: "禁用增量缓存，强制全量重新检查",
        failed_init_runtime: "初始化 compio 运行时失败",
        found_exceeding_limit_parts: ("发现 ", " 个包含超长绝对路径的文件"),
        can_be_simplified_parts: ("\n共 ", " 个文件可被简化，运行不带 `--dry-run` 的命令以应用修改"),
        error_processing_file_parts: ("[warn] 处理文件 ", " 时出错: ", "，已跳过"),
    }
}

/// The texts in the language En.
pub open spec fn texts_en() -> I18n {
    I18n {
        about: "CLI to replace Rust qualified paths with use statements, fixing clippy::absolute_paths",
        path: "Path to file or directory to process (defaults to project root by searching for Cargo.toml upwards)",
        dry_run: "Preview changes without modifying files (defaults to in-place write and formatting)",
        write: "Modify files in-place and run rustfmt (default)",
        check: "Check mode: exit with non-zero status if qualified paths exceed limit (useful for CI)",
        max_segments: "Maximum segments allowed before simplification (default: 2, matching clippy::absolute_paths)",
        keep_segments: "Number of trailing segments to keep (default: 1; use 2 to keep module::item)",
        allow_crate: "Whitelist of crates allowed to retain qualified paths (e.g. std, core)",
        extra_crate: "Explicitly specified extra known crates (used to supplement dependencies)",
        quiet: "Quiet mode, suppress modification details (default in non-terminal/CI environments)",
        show: "Show details, force outputting modification details (overrides default quiet in non-terminal)",
        verbose: "Verbose processing logs",
        no_cache: "Disable incremental cache, force full recheck",
        failed_init_runtime: "Failed to initialize compio runtime",
        found_exceeding_limit_parts: ("Found ", " file(s) with qualified paths exceeding limit"),
        can_be_simplified_parts: ("\n", " file(s) can be simplified, run without `--dry-run` to apply changes"),
        error_processing_file_parts: ("[warn] Error processing ", ": ", ", skipping"),
    }
}

/// The texts in the language Ja.
pub open spec fn texts_ja() -> I18n {
    I18n {
        about: "Rustソースコード内の冗長な絶対修飾パスをトップレベルuseに自動置換し、clippy::absolute_pathsを修正",
        path: "処理対象のファイルまたはディレクトリパス（デフォルトはCargo.tomlを上位方向に自動検索）",
        dry_run: "ドライラン（変更プレビューのみ行い、ファイルは直接変更しない）",
        write: "ファイルをインプレースで更新し、自動でrustfmtを実行（デフォルト）",
        check: "チェックモード：制限超過パスを検出した場合に非ゼロ終了コードで終了（CI向け）",
        max_segments: "許容される最大パス階層数（デフォルト: 2、clippy::absolute_pathsと同一）",
        keep_segments: "置換後に残す末尾の階層数（デフォルト: 1、2を指定するとmodule::itemを維持）",
        allow_crate: "絶対パスを許容するクレートのホワイトリスト（例: std, core）",
        extra_crate: "明示的に指定する追加の既知クレート一覧（依存関係の補完用）",
        quiet: "サイレントモード、詳細な変更出力を抑制（非端末環境ではデフォルト有効）",
        show: "詳細表示モード、変更詳細を強制出力（非対話環境での静音動作を上書き）",
        verbose: "詳細な処理ログを出力",
        no_cache: "増分キャッシュを無効化し、全ファイルを再チェック",
        failed_init_runtime: "compioランタイムの初期化に失敗しました",
        found_exceeding_limit_parts: ("制限を超える修飾パスを含むファイルが ", " 件見つかりました"),
        can_be_simplified_parts: ("\n", " 件のファイルが単純化可能です。変更を適用するには `--dry-run` なしで実行してください"),
        error_processing_file_parts: ("[warn] ファイル ", " の処理中にエラーが発生しました: ", "（スキップ）"),
    }
}

/// The texts in the language Ko.
pub open spec fn texts_ko() -> I18n {
    I18n {
        about: "Rust 소스 코드의 긴 절대 경로를 최상위 use 문으로 자동 치환하여 clippy::absolute_paths를 수정",
        path: "검사 또는 처리할 파일/디렉터리 경로 (기본값: 상위 방향으로 Cargo.toml 자동 탐색)",
        dry_run: "시뮬레이션 모드: 파일 수정 없이 미리보기만 수행",
        write: "파일을 직접 수정하고 rustfmt 자동 실행 (기본값)",
        check: "검사 모드: 제한 초과 경로 발견 시 0이 아닌 상태 코드로 종료 (CI용)",
        max_segments: "허용되는 최대 경로 세그먼트 수 (기본값: 2, clippy::absolute_paths와 일치)",
        keep_segments: "치환 후 유지할 끝 세그먼트 수 (기본값: 1, 2 지정 시 module::item 유지)",
        allow_crate: "절대 경로 유지를 허용할 크레이트 화이트리스트 (예: std, core)",
        extra_crate: "명시적으로 지정할 추가 크레이트 목록",
        quiet: "조용한 모드: 세부 수정 내역 출력 안 함 (비대화형 환경에서 기본값)",
        show: "표시 모드: 세부 수정 내역 강제 출력",
        verbose: "상세 처리 로그 출력",
        no_cache: "증분 캐시를 비활성화하고 전체 다시 검사",
        failed_init_runtime: "compio 런타임 초기화 실패",
        found_exceeding_limit_parts: ("제한을 초과하는 절대 경로가 포함된 파일 ", "개를 찾았습니다"),
        can_be_simplified_parts: ("\n총 ", "개 파일을 단순화할 수 있습니다. 변경사항을 적용하려면 `--dry-run` 없이 실행하세요"),
        error_processing_file_parts: ("[warn] 파일 ", " 처리 중 오류 발생: ", ", 건너뜀"),
    }
}

/// The texts in the language Fr.
pub open spec fn texts_fr() -> I18n {
    I18n {
        about: "Outil CLI pour remplacer les chemins absolus Rust par des clauses use (corrige clippy::absolute_paths)",
        path: "Chemin du fichier ou répertoire à traiter (recherche Cargo.toml vers le haut par défaut)",
        dry_run: "Mode aperçu sans modifier les fichiers réels",
        write: "Modifier les fichiers sur place et exécuter rustfmt (par défaut)",
        check: "Mode vérification : quitter avec un code non nul si des chemins dépassent la limite (pour CI)",
        max_segments: "Nombre maximal de segments de chemin autorisés (défaut : 2)",
        keep_segments: "Nombre de segments finaux à conserver (défaut : 1 ; 2 pour conserver module::item)",
        allow_crate: "Liste blanche de crates autorisées à conserver leurs chemins absolus",
        extra_crate: "Crates connues supplémentaires spécifiées explicitement",
        quiet: "Mode silencieux, supprime les détails de modification",
        show: "Mode affichage, force la sortie des détails de modification",
        verbose: "Afficher les journaux détaillés",
        no_cache: "Désactiver le cache incrémental et forcer une nouvelle analyse",
        failed_init_runtime: "Échec de l'initialisation du runtime compio",
        found_exceeding_limit_parts: ("", " fichier(s) contenant des chemins dépassant la limite trouvés"),
        can_be_simplified_parts: ("\n", " fichier(s) peuvent être simplifiés, exécutez sans `--dry-run` pour appliquer"),
        error_processing_file_parts: ("[warn] Erreur lors du traitement de ", " : ", ", ignoré"),
    }
}

/// The texts in the language De.
pub open spec fn texts_de() -> I18n {
    I18n {
        about: "CLI-Tool zum Ersetzen absoluter Rust-Pfade durch use-Anweisungen (behebt clippy::absolute_paths)",
        path: "Pfad zur zu verarbeitenden Datei oder zum Verzeichnis (sucht standardmäßig aufwärts nach Cargo.toml)",
        dry_run: "Testlauf-Modus: Vorschau ohne tatsächliche Dateiänderungen",
        write: "Dateien direkt ändern und rustfmt ausführen (Standard)",
        check: "Prüfmodus: Beendet mit Fehlercode, falls Pfade das Limit überschreiten (für CI)",
        max_segments: "Maximal zulässige Pfadsegmente vor Vereinfachung (Standard: 2)",
        keep_segments: "Anzahl der beizubehaltenden Endsegmente (Standard: 1; 2 für module::item)",
        allow_crate: "Whitelist von Crates, die absolute Pfade behalten dürfen",
        extra_crate: "Explizit angegebene zusätzliche bekannte Crates",
        quiet: "Stiller Modus, unterdrückt Änderungsdetails",
        show: "Anzeigemodus, erzwingt die Ausgabe von Änderungsdetails",
        verbose: "Ausführliche Verarbeitungsprotokolle ausgeben",
        no_cache: "Inkrementellen Cache deaktivieren und vollständige Neuprüfung erzwingen",
        failed_init_runtime: "Fehler beim Initialisieren der compio-Laufzeitumgebung",
        found_exceeding_limit_parts: ("", " Datei(en) mit unzulässig langen Pfaden gefunden"),
        can_be_simplified_parts: ("\n", " Datei(en) können vereinfacht werden, ohne `--dry-run` ausführen zum Anwenden"),
        error_processing_file_parts: ("[warn] Fehler beim Verarbeiten von ", ": ", ", übersprungen"),
    }
}

/// The texts in the language Es.
pub open spec fn texts_es() -> I18n {
    I18n {
        about: "Herramienta CLI para reemplazar rutas absolutas de Rust por declaraciones use (corrige clippy::absolute_paths)",
        path: "Ruta del archivo o directorio a procesar (por defecto busca Cargo.toml hacia arriba)",
        dry_run: "Modo de prueba preliminar sin modificar los archivos",
        write: "Modificar archivos in situ y ejecutar rustfmt (por defecto)",
        check: "Modo de comprobación: salir con código no nulo si se exceden los límites (para CI)",
        max_segments: "Segmentos máximos permitidos antes de simplificar (por defecto: 2)",
        keep_segments: "Número de segmentos finales a conservar (por defecto: 1; 2 para module::item)",
        allow_crate: "Lista blanca de crates autorizados para mantener rutas absolutas",
        extra_crate: "Crates conocidos adicionales especificados explícitamente",
        quiet: "Modo silencioso, oculta los detalles de las modificaciones",
        show: "Modo de visualización, fuerza la impresión de detalles modificados",
        verbose: "Mostrar registros de procesamiento detallados",
        no_cache: "Desactivar la caché incremental y forzar una nueva comprobación completa",
        failed_init_runtime: "Error al inicializar el entorno de ejecución compio",
        found_exceeding_limit_parts: ("Se encontraron ", " archivo(s) con rutas que superan el límite"),
        can_be_simplified_parts: ("\n", " archivo(s) se pueden simplificar, ejecute sin `--dry-run` para aplicar"),
        error_processing_file_parts: ("[warn] Error al procesar ", ": ", ", omitido"),
    }
}

/// The texts in the language Ru (the English texts).
pub open spec fn texts_ru() -> I18n {
    I18n {
        about: "CLI to replace Rust qualified paths with use statements, fixing clippy::absolute_paths",
        path: "Path to file or directory to process (defaults to project root by searching for Cargo.toml upwards)",
        dry_run: "Preview changes without modifying files (defaults to in-place write and formatting)",
        write: "Modify files in-place and run rustfmt (default)",
        check: "Check mode: exit with non-zero status if qualified paths exceed limit (useful for CI)",
        max_segments: "Maximum segments allowed before simplification (default: 2, matching clippy::absolute_paths)",
        keep_segments: "Number of trailing segments to keep (default: 1; use 2 to keep module::item)",
        allow_crate: "Whitelist of crates allowed to retain qualified paths (e.g. std, core)",
        extra_crate: "Explicitly specified extra known crates (used to supplement dependencies)",
        quiet: "Quiet mode, suppress modification details (default in non-terminal/CI environments)",
        show: "Show details, force outputting modification details (overrides default quiet in non-terminal)",
        verbose: "Verbose processing logs",
        no_cache: "Disable incremental cache, force full recheck",
        failed_init_runtime: "Failed to initialize compio runtime",
        found_exceeding_limit_parts: ("Found ", " file(s) with qualified paths exceeding limit"),
        can_be_simplified_parts: ("\n", " file(s) can be simplified, run without `--dry-run` to apply changes"),
        error_processing_file_parts: ("[warn] Error processing ", ": ", ", skipping"),
    }
}

/// The texts in the language Pt.
pub open spec fn texts_pt() -> I18n {
    I18n {
        about: "Ferramenta CLI para substituir caminhos absolutos do Rust por declarações use (corrige clippy::absolute_paths)",
        path: "Caminho para o arquivo ou diretório a processar (busca Cargo.toml para cima por padrão)",
        dry_run: "Modo de simulação sem modificar os arquivos reais",
        write: "Modificar arquivos no local e executar rustfmt (padrão)",
        check: "Modo de verificação: sair com código diferente de zero se limites forem excedidos (para CI)",
        max_segments: "Segmentos máximos de caminho permitidos antes da simplificação (padrão: 2)",
        keep_segments: "Número de segmentos finais a manter (padrão: 1; 2 para manter module::item)",
        allow_crate: "Lista de permissões de crates autorizadas a manter caminhos absolutos",
        extra_crate: "Crates conhecidas adicionais especificadas explicitamente",
        quiet: "Modo silencioso, oculta detalhes das modificações",
        show: "Modo de exibição, força a impressão dos detalhes modificados",
        verbose: "Exibir logs de processamento detalhados",
        no_cache: "Desativar cache incremental e forçar nova verificação completa",
        failed_init_runtime: "Falha ao inicializar o runtime compio",
        found_exceeding_limit_parts: ("", " arquivo(s) com caminhos que excedem o limite encontrados"),
        can_be_simplified_parts: ("\n", " arquivo(s) podem ser simplificados, execute sem `--dry-run` para aplicar"),
        error_processing_file_parts: ("[warn] Erro ao processar ", ": ", ", ignorado"),
    }
}

/// The texts in the language It.
pub open spec fn texts_it() -> I18n {
    I18n {
        about: "Strumento CLI per sostituire i percorsi assoluti Rust con use (corregge clippy::absolute_paths)",
        path: "Percorso del file o della directory da elaborare (cerca Cargo.toml verso l'alto per impostazione predefinita)",
        dry_run: "Modalità di prova senza modificare i file effettivi",
        write: "Modifica i file sul posto ed esegue rustfmt (predefinito)",
        check: "Modalità di controllo: esce con stato diverso da zero se i percorsi superano il limite (per CI)",
        max_segments: "Segmenti di percorso massimi consentiti prima della semplificazione (predefinito: 2)",
        keep_segments: "Numero di segmenti finali da mantenere (predefinito: 1; 2 per mantenere module::item)",
        allow_crate: "Whitelist di crate autorizzati a mantenere percorsi assoluti",
        extra_crate: "Ulteriori crate noti specificati esplicitamente",
        quiet: "Modalità silenziosa, sopprime i dettagli delle modifiche",
        show: "Modalità di visualizzazione, forza l'output dei dettagli modificati",
        verbose: "Visualizza log di elaborazione dettagliati",
        no_cache: "Disattiva la cache incrementale e forza un controllo completo",
        failed_init_runtime: "Inizializzazione del runtime compio non riuscita",
        found_exceeding_limit_parts: ("Trovati ", " file con percorsi che superano il limite"),
        can_be_simplified_parts: ("\n", " file possono essere semplificati, eseguire senza `--dry-run` per applicare"),
        error_processing_file_parts: ("[warn] Errore durante l'elaborazione di ", ": ", ", ignorato"),
    }
}

/// The texts in the language Ar.
pub open spec fn texts_ar() -> I18n {
    I18n {
        about: "أداة لاستبدال المسارات المؤهلة في Rust بعبارات use، وإصلاح clippy::absolute_paths",
        path: "مسار الملف أو الدليل المراد معالجته (يبحث تلقائيًا عن Cargo.toml لأعلى)",
        dry_run: "وضع المعاينة دون تعديل الملفات فعليًا",
        write: "تعديل الملفات مباشرة وتشغيل rustfmt تلقائيًا (افتراضي)",
        check: "وضع التحقق: الإنهاء برمز غير صفري إذا تجاوزت المسارات الحد المسموح به",
        max_segments: "الحد الأقصى المسموح به لأجزاء المسار قبل التبسيط (افتراضي: 2)",
        keep_segments: "عدد الأجزاء النهائية المراد الاحتفاظ بها (افتراضي: 1)",
        allow_crate: "القائمة البيضاء للحزم المسموح لها بالاحتفاظ بمسارات مطلقة",
        extra_crate: "حزم معروفة إضافية محددة صراحة",
        quiet: "الوضع الصامت، كتم تفاصيل التعديلات",
        show: "وضع العرض، فرض إخراج تفاصيل التعديل",
        verbose: "إخراج سجلات المعالجة التفصيلية",
        no_cache: "تعطيل ذاكرة التخزين المؤقت وإعادة الفحص الكامل",
        failed_init_runtime: "فشل في تهيئة بيئة تشغيل compio",
        found_exceeding_limit_parts: ("تم العثور على ", " ملف(ات) تتجاوز الحد المسموح به للمسارات"),
        can_be_simplified_parts: ("\nيمكن تبسيط ", " ملف(ات)، قم بالتشغيل بدون `--dry-run` لتطبيق التغييرات"),
        error_processing_file_parts: ("[warn] خطأ أثناء معالجة ", ": ", "، تم التخطي"),
    }
}

/// The texts in the language Hi.
pub open spec fn texts_hi() -> I18n {
    I18n {
        about: "Rust में पूर्ण पथों को use कथनों से बदलने और clippy::absolute_paths को ठीक करने का CLI टूल",
        path: "जांच या संसाधित करने के लिए फ़ाइल या निर्देशिका पथ (डिफ़ॉल्ट रूप से ऊपर Cargo.toml खोजता है)",
        dry_run: "फ़ाइलों को संशोधित किए बिना केवल पूर्वावलोकन मोड",
        write: "फ़ाइलों को सीधे संशोधित करें और स्वतः rustfmt चलाएं (डिफ़ॉल्ट)",
        check: "जांच मोड: यदि पथ सीमा से अधिक हैं तो गैर-शून्य कोड के साथ बाहर निकलें",
        max_segments: "सरलीकरण से पहले अधिकतम अनुमत पथ खंड (डिफ़ॉल्ट: 2)",
        keep_segments: "रखे जाने वाले अंतिम खंडों की संख्या (डिफ़ॉल्ट: 1)",
        allow_crate: "पूर्ण पथ बनाए रखने के लिए अनुमत क्रेट्स की श्वेतसूची",
        extra_crate: "स्पष्ट रूप से निर्दिष्ट अतिरिक्त ज्ञात क्रेट्स",
        quiet: "शांत मोड, संशोधन विवरण छुपाएं",
        show: "प्रदर्शन मोड, संशोधन विवरण प्रदर्शित करने के लिए बाध्य करें",
        verbose: "विस्तृत प्रोसेसिंग लॉग दिखाएं",
        no_cache: "इंक्रीमेंटल कैश अक्षम करें और पूर्ण पुनः जांच करें",
        failed_init_runtime: "compio रनटाइम प्रारंभ करने में विफल",
        found_exceeding_limit_parts: ("सीमा से अधिक पथों वाली ", " फ़ाइलें मिलीं"),
        can_be_simplified_parts: ("\n", " फ़ाइलों को सरल बनाया जा सकता है, परिवर्तनों को लागू करने के लिए बिना `--dry-run` के चलाएं"),
        error_processing_file_parts: ("[warn] फ़ाइल ", " को संसाधित करने में त्रुटि: ", ", छोड़ दिया गया"),
    }
}

/// The texts in the language Vi.
pub open spec fn texts_vi() -> I18n {
    I18n {
        about: "Công cụ dòng lệnh thay thế đường dẫn tuyệt đối trong Rust bằng use, sửa clippy::absolute_paths",
        path: "Đường dẫn tệp hoặc thư mục cần xử lý (mặc định tự động tìm Cargo.toml lên trên)",
        dry_run: "Chế độ chạy thử, chỉ xem trước mà không sửa tệp thực tế",
        write: "Sửa đổi tệp trực tiếp và tự động chạy rustfmt (mặc định)",
        check: "Chế độ kiểm tra: thoát với mã khác 0 nếu phát hiện đường dẫn vượt quá giới hạn",
        max_segments: "Số phân đoạn đường dẫn tối đa cho phép trước khi rút gọn (mặc định: 2)",
        keep_segments: "Số phân đoạn cuối cần giữ lại (mặc định: 1; đặt 2 để giữ module::item)",
        allow_crate: "Danh sách trắng các crate được phép giữ đường dẫn tuyệt đối",
        extra_crate: "Các crate đã biết bổ sung được chỉ định rõ ràng",
        quiet: "Chế độ yên lặng, không xuất chi tiết chỉnh sửa",
        show: "Chế độ hiển thị, buộc xuất chi tiết chỉnh sửa",
        verbose: "Xuất nhật ký xử lý chi tiết",
        no_cache: "Vô hiệu hóa bộ nhớ đệm và buộc kiểm tra lại toàn bộ",
        failed_init_runtime: "Không thể khởi tạo môi trường thực thi compio",
        found_exceeding_limit_parts: ("Đã tìm thấy ", " tệp có đường dẫn vượt quá giới hạn"),
        can_be_simplified_parts: ("\nCó thể rút gọn ", " tệp, chạy không có `--dry-run` để áp dụng thay đổi"),
        error_processing_file_parts: ("[warn] Lỗi khi xử lý ", ": ", ", đã bỏ qua"),
    }
}

/// The texts in the language Th.
pub open spec fn texts_th() -> I18n {
    I18n {
        about: "เครื่องมือ CLI สำหรับแทนที่พาธแบบเต็มใน Rust ด้วยคำสั่ง use และแก้ไข clippy::absolute_paths",
        path: "พาธของไฟล์หรือไดเรกทอรีที่ต้องการประมวลผล (ค้นหา Cargo.toml ย้อนขึ้นไปโดยค่าเริ่มต้น)",
        dry_run: "โหมดทดลองใช้เพื่อดูตัวอย่างโดยไม่แก้ไขไฟล์จริง",
        write: "แก้ไขไฟล์โดยตรงและรัน rustfmt อัตโนมัติ (ค่าเริ่มต้น)",
        check: "โหมดตรวจสอบ: ออกด้วยรหัสข้อผิดพลาดหากพบพาธที่เกินขีดจำกัด",
        max_segments: "จำนวนส่วนพาธสูงสุดที่อนุญาตก่อนย่อให้สั้นลง (ค่าเริ่มต้น: 2)",
        keep_segments: "จำนวนส่วนพาธท้ายสุดที่ต้องการคงไว้ (ค่าเริ่มต้น: 1)",
        allow_crate: "ไวท์ลิสต์ของ crate ที่อนุญาตให้ใช้พาธแบบเต็มได้",
        extra_crate: "crate เพิ่มเติมที่ระบุไว้อย่างชัดเจน",
        quiet: "โหมดเงียบ ซ่อนรายละเอียดการแก้ไข",
        show: "โหมดแสดงผล บังคับแสดงรายละเอียดการแก้ไข",
        verbose: "แสดงบันทึกการประมวลผลโดยละเอียด",
        no_cache: "ปิดใช้งานแคชและบังคับตรวจสอบใหม่ทั้งหมด",
        failed_init_runtime: "การเตรียมพร้อมการทำงานของ compio ล้มเหลว",
        found_exceeding_limit_parts: ("พบ ", " ไฟล์ที่มีพาธเกินขีดจำกัด"),
        can_be_simplified_parts: ("\nสามารถย่อพาธได้ ", " ไฟล์ รันโดยไม่ใส่ `--dry-run` เพื่อใช้การเปลี่ยนแปลง"),
        error_processing_file_parts: ("[warn] เกิดข้อผิดพลาดขณะประมวลผล ", ": ", " ข้ามไป"),
    }
}

/// The texts in the language Tr.
pub open spec fn texts_tr() -> I18n {
    I18n {
        about: "Rust kaynak kodundaki uzun mutlak yolları use bildirimleriyle değiştiren ve clippy::absolute_paths kuralını düzelten CLI aracı",
        path: "İşlenecek dosya veya dizin yolu (varsayılan olarak yukarı doğru Cargo.toml arar)",
        dry_run: "Dosyaları değiştirmeden önizleme yapan deneme modu",
        write: "Dosyaları yerinde değiştir ve rustfmt çalıştır (varsayılan)",
        check: "Kontrol modu: sınırı aşan yol bulunursa sıfır olmayan kodla çık (CI için)",
        max_segments: "Basitleştirmeden önce izin verilen maksimum yol segmenti (varsayılan: 2)",
        keep_segments: "Basitleştirmeden sonra tutulacak son segment sayısı (varsayılan: 1)",
        allow_crate: "Mutlak yolları korumasına izin verilen paketlerin beyaz listesi",
        extra_crate: "Açıkça belirtilen ek bilinen paketler",
        quiet: "Sessiz mod, değişiklik ayrıntılarını gizle",
        show: "Görüntüleme modu, değişiklik ayrıntılarını zorla göster",
        verbose: "Ayrıntılı işlem günlüklerini göster",
        no_cache: "Artımlı önbelleği devre dışı bırak ve tam yeniden denetim yap",
        failed_init_runtime: "compio çalışma zamanı başlatılamadı",
        found_exceeding_limit_parts: ("Sınırı aşan yollara sahip ", " dosya bulundu"),
        can_be_simplified_parts: ("\n", " dosya basitleştirilebilir, değişiklikleri uygulamak için `--dry-run` olmadan çalıştırın"),
        error_processing_file_parts: ("[warn] ", " işlenirken hata oluştu: ", ", atlandı"),
    }
}

/// The texts in the language Pl.
pub open spec fn texts_pl() -> I18n {
    I18n {
        about: "Narzędzie CLI do zastępowania pełnych ścieżek Rust instrukcjami use (naprawia clippy::absolute_paths)",
        path: "Ścieżka do pliku lub katalogu (domyślnie wyszukuje Cargo.toml w górę)",
        dry_run: "Tryb próbny bez modyfikowania rzeczywistych plików",
        write: "Modyfikuj pliki w miejscu i uruchamiaj rustfmt (domyślnie)",
        check: "Tryb sprawdzania: zakończ z kodem błędu, jeśli ścieżki przekraczają limit (dla CI)",
        max_segments: "Maksymalna dozwolona liczba segmentów ścieżki (domyślnie: 2)",
        keep_segments: "Liczba końcowych segmentów do zachowania (domyślnie: 1)",
        allow_crate: "Biała lista skrzynek (crates), które mogą zachować pełne ścieżki",
        extra_crate: "Dodatkowe znane skrzynki określone jawnie",
        quiet: "Tryb cichy, ukrywa szczegóły modyfikacji",
        show: "Tryb wyświetlania, wymusza wypisanie szczegółów modyfikacji",
        verbose: "Szczegółowe dzienniki przetwarzania",
        no_cache: "Wyłącz pamięć podręczną i wymuś pełną ponowną weryfikację",
        failed_init_runtime: "Nie udało się zainicjować środowiska wykonawczego compio",
        found_exceeding_limit_parts: ("Znaleziono ", " plik(ów) ze ścieżkami przekraczającymi limit"),
        can_be_simplified_parts: ("\nMożna uprościć ", " plik(ów), uruchom bez `--dry-run`, aby zastosować zmiany"),
        error_processing_file_parts: ("[warn] Błąd podczas przetwarzania ", ": ", ", pomijanie"),
    }
}

/// The texts in the language Nl.
pub open spec fn texts_nl() -> I18n {
    I18n {
        about: "CLI-tool om absolute Rust-paden te vervangen door use-instructies (herstelt clippy::absolute_paths)",
        path: "Pad naar bestand of map om te verwerken (zoekt standaard naar boven naar Cargo.toml)",
        dry_run: "Voorbeeldmodus zonder bestanden daadwerkelijk te wijzigen",
        write: "Wijzig bestanden ter plaatse en voer rustfmt uit (standaard)",
        check: "Controlemodus: sluit af met foutcode als paden de limiet overschrijden (voor CI)",
        max_segments: "Maximaal toegestane padsegmenten vóór vereenvoudiging (standaard: 2)",
        keep_segments: "Aantal te behouden eindsegmenten (standaard: 1)",
        allow_crate: "Witte lijst van crates die absolute paden mogen behouden",
        extra_crate: "Expliciet opgegeven extra bekende crates",
        quiet: "Stille modus, verbergt wijzigingsdetails",
        show: "Weergavemodus, forceert het tonen van wijzigingsdetails",
        verbose: "Gedetailleerde verwerkingslogboeken weergeven",
        no_cache: "Incrementele cache uitschakelen en volledige hercontrole forceren",
        failed_init_runtime: "Initialiseren van compio-runtime mislukt",
        found_exceeding_limit_parts: ("", " bestand(en) gevonden met paden die de limiet overschrijden"),
        can_be_simplified_parts: ("\n", " bestand(en) kunnen worden vereenvoudigd, voer uit zonder `--dry-run` om toe te passen"),
        error_processing_file_parts: ("[warn] Fout bij verwerken van ", ": ", ", overgeslagen"),
    }
}

/// The texts in the language Id.
pub open spec fn texts_id() -> I18n {
    I18n {
        about: "Alat CLI untuk mengganti jalur absolut Rust dengan pernyataan use, memperbaiki clippy::absolute_paths otomatis",
        path: "Jalur berkas atau direktori yang akan diproses (mencari Cargo.toml ke atas secara default)",
        dry_run: "Mode uji coba pratinjau tanpa memodifikasi berkas sebenarnya",
        write: "Ubah berkas secara langsung dan jalankan rustfmt (default)",
        check: "Mode pemeriksaan: keluar dengan status bukan nol jika jalur melebihi batas (untuk CI)",
        max_segments: "Segmen jalur maksimum yang diizinkan sebelum penyederhanaan (default: 2)",
        keep_segments: "Jumlah segmen akhir yang dipertahankan (default: 1; gunakan 2 untuk module::item)",
        allow_crate: "Daftar putih crate yang diizinkan mempertahankan jalur absolut",
        extra_crate: "Crate tambahan yang diketahui dan ditentukan secara eksplisit",
        quiet: "Mode hening, sembunyikan rincian modifikasi",
        show: "Mode tampilan, paksa menampilkan rincian modifikasi",
        verbose: "Tampilkan log pemrosesan terperinci",
        no_cache: "Nonaktifkan cache inkremental dan paksa pemeriksaan ulang penuh",
        failed_init_runtime: "Gagal menginisialisasi runtime compio",
        found_exceeding_limit_parts: ("Ditemukan ", " berkas dengan jalur yang melebihi batas"),
        can_be_simplified_parts: ("\n", " berkas dapat disederhanakan, jalankan tanpa `--dry-run` untuk menerapkan perubahan"),
        error_processing_file_parts: ("[warn] Terjadi kesalahan saat memproses ", ": ", ", dilewati"),
    }
}

/// The texts in the language Uk.
pub open spec fn texts_uk() -> I18n {
    I18n {
        about: "Утиліта CLI для заміни абсолютних шляхів Rust на use, автоматичне виправлення clippy::absolute_paths",
        path: "Шлях до файлу або каталогу (за замовчуванням шукає Cargo.toml вгору)",
        dry_run: "Режим попереднього перегляду без фактичної зміни файлів",
        write: "Змінювати файли на місці та запускати rustfmt (за замовчуванням)",
        check: "Режим перевірки: вихід із ненульовим кодом у разі перевищення ліміту шляхів (для CI)",
        max_segments: "Максимальна дозволена кількість сегментів шляху (за замовчуванням: 2)",
        keep_segments: "Кількість кінцевих сегментів для збереження (за замовчуванням: 1)",
        allow_crate: "Білий список крейтів, яким дозволено зберігати абсолютні шляхи",
        extra_crate: "Явно вказані додаткові відомі крейти",
        quiet: "Тихий режим, приховує деталі змін",
        show: "Режим показу, примусово виводить деталі змін",
        verbose: "Докладні журнали обробки",
        no_cache: "Вимкнути інкрементний кеш і примусово перевірити все наново",
        failed_init_runtime: "Не вдалося ініціалізувати середовище compio",
        found_exceeding_limit_parts: ("Знайдено ", " файл(ів) із перевищенням довжини шляхів"),
        can_be_simplified_parts: ("\nМожна спростити ", " файл(ів), запустіть без `--dry-run` для застосування змін"),
        error_processing_file_parts: ("[warn] Помилка обробки ", ": ", ", пропущено"),
    }
}

/// The texts in the language Cs.
pub open spec fn texts_cs() -> I18n {
    I18n {
        about: "Nástroj CLI pro nahrazení absolutních cest v Rustu příkazy use (opravuje clippy::absolute_paths)",
        path: "Cesta k souboru nebo adresáři (ve výchozím nastavení hledá Cargo.toml směrem nahoru)",
        dry_run: "Režim náhledu bez skutečné úpravy souborů",
        write: "Upravit soubory na místě a spustit rustfmt (výchozí)",
        check: "Režim kontroly: ukončit s nenulovým kódem, pokud cesty překročí limit (pro CI)",
        max_segments: "Maximální povolený počet segmentů cesty před zjednodušením (výchozí: 2)",
        keep_segments: "Počet koncových segmentů k zachování (výchozí: 1)",
        allow_crate: "Seznam povolených beden (crates), které si mohou ponechat absolutní cesty",
        extra_crate: "Explicitně zadané další známé crates",
        quiet: "Tichý režim, potlačí podrobnosti o úpravách",
        show: "Režim zobrazení, vynutí výpis podrobností o úpravách",
        verbose: "Zobrazit podrobné protokoly zpracování",
        no_cache: "Zakázat přírůstkovou mezipaměť a vynutit úplnou novou kontrolu",
        failed_init_runtime: "Inicializace modulu runtime compio se nezdařila",
        found_exceeding_limit_parts: ("Nalezeno ", " souborů s cestami překračujícími limit"),
        can_be_simplified_parts: ("\nLze zjednodušit ", " souborů, spusťte bez `--dry-run` pro aplikaci změn"),
        error_processing_file_parts: ("[warn] Chyba při zpracování ", ": ", ", přeskočeno"),
    }
}

/// The texts in the language Sv.
pub open spec fn texts_sv() -> I18n {
    I18n {
        about: "CLI-verktyg för att ersätta absoluta Rust-sökvägar med use-satser (åtgärdar clippy::absolute_paths)",
        path: "Sökväg till fil eller katalog som ska bearbetas (söker uppåt efter Cargo.toml som standard)",
        dry_run: "Förhandsgranskningsläge utan att faktiskt ändra filer",
        write: "Ändra filer på plats och kör rustfmt automatiskt (standard)",
        check: "Kontrolläge: avsluta med felkod om sökvägar överskrider gränsen (för CI)",
        max_segments: "Maximalt antal tillåtna sökvägssegment före förenkling (standard: 2)",
        keep_segments: "Antal avslutande segment att behålla (standard: 1)",
        allow_crate: "Vitlista över crates som tillåts behålla absoluta sökvägar",
        extra_crate: "Ytterligare kända crates som specificerats uttryckligen",
        quiet: "Tyst läge, döljer ändringsdetaljer",
        show: "Visningsläge, tvingar utskrift av ändringsdetaljer",
        verbose: "Visa detaljerade bearbetningsloggar",
        no_cache: "Inaktivera inkrementell cache och tvinga fullständig omkontroll",
        failed_init_runtime: "Kunde inte initiera compio-körtid",
        found_exceeding_limit_parts: ("Hittade ", " fil(er) med sökvägar som överskrider gränsen"),
        can_be_simplified_parts: ("\n", " fil(er) kan förenklas, kör utan `--dry-run` för att tillämpa ändringar"),
        error_processing_file_parts: ("[warn] Fel vid bearbetning av ", ": ", ", hoppar över"),
    }
}

/// The texts in the language El.
pub open spec fn texts_el() -> I18n {
    I18n {
        about: "Εργαλείο CLI για την αντικατάσταση απόλυτων διαδρομών Rust με δηλώσεις use (διορθώνει clippy::absolute_paths)",
        path: "Διαδρομή αρχείου ή καταλόγου προς επεξεργασία (αναζητά Cargo.toml προς τα πάνω)",
        dry_run: "Λειτουργία προεπισκόπησης χωρίς τροποποίηση των πραγματικών αρχείων",
        write: "Τροποποίηση αρχείων επί τόπου και αυτόματη εκτέλεση rustfmt (προεπιλογή)",
        check: "Λειτουργία ελέγχου: έξοδος με μη μηδενικό κωδικό εάν οι διαδρομές υπερβαίνουν το όριο",
        max_segments: "Μέγιστα επιτρεπόμενα τμήματα διαδρομής πριν από την απλοποίηση (προεπιλογή: 2)",
        keep_segments: "Αριθμός τελικών τμημάτων προς διατήρηση (προεπιλογή: 1)",
        allow_crate: "Λίστα επιτρεπόμενων crates για διατήρηση απόλυτων διαδρομών",
        extra_crate: "Επιπλέον γνωστά crates που καθορίζονται ρητά",
        quiet: "Αθόρυβη λειτουργία, απόκρυψη λεπτομερειών τροποποίησης",
        show: "Λειτουργία εμφάνισης, επιβολή εμφάνισης λεπτομερειών τροποποίησης",
        verbose: "Εμφάνιση λεπτομερών καταγραφών επεξεργασίας",
        no_cache: "Απενεργοποίηση σταδιακής προσωρινής μνήμης και πλήρης επανέλεγχος",
        failed_init_runtime: "Αποτυχία προετοιμασίας του περιβάλλοντος εκτέλεσης compio",
        found_exceeding_limit_parts: ("Βρέθηκαν ", " αρχεία με διαδρομές που υπερβαίνουν το όριο"),
        can_be_simplified_parts: ("\n", " αρχεία μπορούν να απλοποιηθούν, εκτελέστε χωρίς `--dry-run` για εφαρμογή"),
        error_processing_file_parts: ("[warn] Σφάλμα κατά την επεξεργασία του ", ": ", ", παράβλεψη"),
    }
}

/// The texts in the language He.
pub open spec fn texts_he() -> I18n {
    I18n {
        about: "כלי CLI להחלפת נתיבים מלאים ב-Rust בהצהרות use, ותיקון clippy::absolute_paths",
        path: "נתיב לקובץ או לתיקייה לעיבוד (מחפש Cargo.toml כלפי מעלה כברירת מחדל)",
        dry_run: "מצב תצוגה מקדימה ללא שינוי קבצים בפועל",
        write: "עריכת קבצים במקום והפעלת rustfmt אוטומטית (ברירת מחדל)",
        check: "מצב בדיקה: יציאה עם קוד שגיאה אם יש נתיבים החורגים מהמגבלה",
        max_segments: "מספר מקטעי נתיב מרבי מותר לפני פישוט (ברירת מחדל: 2)",
        keep_segments: "מספר מקטעים סופיים שיש לשמור (ברירת מחדל: 1)",
        allow_crate: "רשימת crates מורשים לשמירה על נתיבים מלאים",
        extra_crate: "crates נוספים שצוינו במפורש",
        quiet: "מצב שקט, הסתרת פרטי שינויים",
        show: "מצב תצוגה, הצגת פרטי שינויים באופן מאולץ",
        verbose: "הצגת יומני עיבוד מפורטים",
        no_cache: "השבתת מטמון ובדיקה מלאה מחדש",
        failed_init_runtime: "אתחול סביבת compio נכשל",
        found_exceeding_limit_parts: ("נמצאו ", " קבצים עם נתיבים החורגים מהמגבלה"),
        can_be_simplified_parts: ("\nניתן לפשט ", " קבצים, הפעל ללא `--dry-run` כדי להחיל שינויים"),
        error_processing_file_parts: ("[warn] שגיאה בעיבוד ", ": ", ", מדלג"),
    }
}

/// The texts in the language Ro.
pub open spec fn texts_ro() -> I18n {
    I18n {
        about: "Instrument CLI pentru înlocuirea căilor absolute din Rust cu instrucțiuni use (repară clippy::absolute_paths)",
        path: "Calea către fișierul sau directorul de procesat (caută Cargo.toml în sus în mod implicit)",
        dry_run: "Mod previzualizare fără modificarea fișierelor",
        write: "Modifică fișierele pe loc și rulează automat rustfmt (implicit)",
        check: "Mod verificare: ieșire cu cod diferit de zero dacă se depășește limita (pentru CI)",
        max_segments: "Segmente maxime de cale permise înainte de simplificare (implicit: 2)",
        keep_segments: "Număr de segmente finale de păstrat (implicit: 1)",
        allow_crate: "Lista albă a pachetelor cărora li se permite păstrarea căilor absolute",
        extra_crate: "Pachete suplimentare specificate explicit",
        quiet: "Mod silențios, ascunde detaliile modificărilor",
        show: "Mod afișare, forțează afișarea detaliilor modificărilor",
        verbose: "Afișează jurnale detaliate de procesare",
        no_cache: "Dezactivează memoria cache incrementală și forțează reverificarea completă",
        failed_init_runtime: "Inițializarea runtime-ului compio a eșuat",
        found_exceeding_limit_parts: ("Au fost găsite ", " fișiere cu căi ce depășesc limita"),
        can_be_simplified_parts: ("\n", " fișiere pot fi simplificate, rulați fără `--dry-run` pentru a aplica"),
        error_processing_file_parts: ("[warn] Eroare la procesarea ", ": ", ", se omite"),
    }
}

/// The texts in the language Hu.
pub open spec fn texts_hu() -> I18n {
    I18n {
        about: "CLI eszköz a Rust abszolút útvonalak use utasításokra cserélésére (javítja a clippy::absolute_paths hibát)",
        path: "A feldolgozandó fájl vagy könyvtár útvonala (alapértelmezés szerint felfelé keresi a Cargo.toml fájlt)",
        dry_run: "Előnézeti mód a fájlok tényleges módosítása nélkül",
        write: "Fájlok helyben módosítása és a rustfmt automatikus futtatása (alapértelmezett)",
        check: "Ellenőrző mód: kilépés hibakóddal, ha az útvonalak túllépik a korlátot (CI-hez)",
        max_segments: "A simplification előtt engedélyezett maximális útvonalszegmensek száma (alapértelmezett: 2)",
        keep_segments: "A megőrizendő záró szegmensek száma (alapértelmezett: 1)",
        allow_crate: "Azon csomagok fehérlistája, amelyek megtarthatják az abszolút útvonalakat",
        extra_crate: "Kifejezetten megadott további ismert csomagok",
        quiet: "Csendes mód, módosítási részletek elrejtése",
        show: "Megjelenítési mód, módosítási részletek kényszerített kiírása",
        verbose: "Részletes feldolgozási naplók megjelenítése",
        no_cache: "Növekményes gyorsítótár letiltása és teljes újravizsgálat kényszerítése",
        failed_init_runtime: "A compio futtatókörnyezet inicializálása sikertelen",
        found_exceeding_limit_parts: ("", " korlátot meghaladó útvonalat tartalmazó fájl található"),
        can_be_simplified_parts: ("\n", " fájl egyszerűsíthető, futtassa a `--dry-run` nélkül a módosítások alkalmazásához"),
        error_processing_file_parts: ("[warn] Hiba a(z) ", " feldolgozásakor: ", ", kihagyva"),
    }
}

/// The texts in the language Da.
pub open spec fn texts_da() -> I18n {
    I18n {
        about: "CLI-værktøj til at erstatte absolutte Rust-stier med use-sætninger (retter clippy::absolute_paths)",
        path: "Sti til fil eller mappe, der skal behandles (søger opad efter Cargo.toml som standard)",
        dry_run: "Forhåndsvisningstilstand uden at ændre filer",
        write: "Rediger filer direkte og kør rustfmt automatisk (standard)",
        check: "Kontroltilstand: afslut med fejlkode, hvis stier overskrider grænsen (til CI)",
        max_segments: "Maksimalt tilladte stisegmenter før forenkling (standard: 2)",
        keep_segments: "Antal afsluttende segmenter, der skal bevares (standard: 1)",
        allow_crate: "Hvidliste over crates, der må beholde absolutte stier",
        extra_crate: "Eksplicit angivne ekstra kendte crates",
        quiet: "Stille tilstand, skjul ændringsdetaljer",
        show: "Visningstilstand, gennemtving udskrift af ændringsdetaljer",
        verbose: "Vis detaljerede behandlingslogger",
        no_cache: "Deaktiver trinvis cache og gennemtving fuld genkontrol",
        failed_init_runtime: "Kunne ikke initialisere compio-køretid",
        found_exceeding_limit_parts: ("Fandt ", " fil(er) med stier, der overskrider grænsen"),
        can_be_simplified_parts: ("\n", " fil(er) kan forenkles, kør uden `--dry-run` for at anvende ændringer"),
        error_processing_file_parts: ("[warn] Fejl under behandling af ", ": ", ", springer over"),
    }
}

/// The texts in the language Fi.
pub open spec fn texts_fi() -> I18n {
    I18n {
        about: "CLI-työkalu Rustin absoluuttisten polkujen korvaamiseen use-lauseilla (korjaa clippy::absolute_paths)",
        path: "Käsiteltävän tiedoston tai hakemiston polku (etsii oletuksena Cargo.toml-tiedostoa ylöspäin)",
        dry_run: "Esikatselutila muuttamatta tiedostoja todellisuudessa",
        write: "Muokkaa tiedostoja suoraan ja suorita rustfmt automaattisesti (oletus)",
        check: "Tarkistustila: poistu virhekoodilla, jos polut ylittävät rajan (CI-käyttöön)",
        max_segments: "Suurin sallittu polkusegmenttien määrä ennen yksinkertaistamista (oletus: 2)",
        keep_segments: "Säilytettävien loppusegmenttien määrä (oletus: 1)",
        allow_crate: "Sallittujen pakettien luettelo, jotka voivat säilyttää absoluuttiset polut",
        extra_crate: "Erikseen määritellyt tunnetut lisäpaketit",
        quiet: "Hiljainen tila, piilota muutosten tiedot",
        show: "Näyttötila, pakota muutosten tietojen tulostaminen",
        verbose: "Näytä yksityiskohtaiset käsittelylokit",
        no_cache: "Poista välimuisti käytöstä ja suorita täysi uudelleentarkistus",
        failed_init_runtime: "compio-suoritusympäristön alustaminen epäonnistui",
        found_exceeding_limit_parts: ("Löytyi ", " tiedosto(a), joiden polut ylittävät rajan"),
        can_be_simplified_parts: ("\n", " tiedosto(a) voidaan yksinkertaistaa, suorita ilman `--dry-run`-valitsinta muutosten ottamiseksi käyttöön"),
        error_processing_file_parts: ("[warn] Virhe käsiteltäessä tiedostoa ", ": ", ", ohitetaan"),
    }
}

/// The texts in the language No.
pub open spec fn texts_no() -> I18n {
    I18n {
        about: "CLI-verktøy for å erstatte absolutte Rust-stier med use-setninger (fikser clippy::absolute_paths)",
        path: "Bane til fil eller mappe som skal behandles (søker oppover etter Cargo.toml som standard)",
        dry_run: "Forhåndsvisningsmodus uten å endre filer",
        write: "Endre filer direkte og kjør rustfmt automatisk (standard)",
        check: "Kontrollmodus: avslutt med feilkode hvis stier overskrider grensen (for CI)",
        max_segments: "Maksimalt tillatte stisegmenter før forenkling (standard: 2)",
        keep_segments: "Antall avsluttende segmenter som skal beholdes (standard: 1)",
        allow_crate: "Hviteliste over crates som tillates å beholde absolutte stier",
        extra_crate: "Ekstra kjente crates spesifisert eksplisitt",
        quiet: "Stille modus, skjul endringsdetaljer",
        show: "Visningsmodus, tving utskrift av endringsdetaljer",
        verbose: "Vis detaljerte behandlingslogger",
        no_cache: "Deaktiver trinnvis hurtigbuffer og tving full ny sjekk",
        failed_init_runtime: "Kunne ikke initialisere compio-kjøretid",
        found_exceeding_limit_parts: ("Fant ", " fil(er) med stier som overskrider grensen"),
        can_be_simplified_parts: ("\n", " fil(er) kan forenkles, kjør uten `--dry-run` for å ta i bruk endringer"),
        error_processing_file_parts: ("[warn] Feil under behandling av ", ": ", ", hopper over"),
    }
}

/// The texts in the language `lang`.
pub open spec fn texts(lang: Lang) -> I18n {
    match lang {
        Lang::Zh => texts_zh(),
        Lang::En => texts_en(),
        Lang::Ja => texts_ja(),
        Lang::Ko => texts_ko(),
        Lang::Fr => texts_fr(),
        Lang::De => texts_de(),
        Lang::Es => texts_es(),
        Lang::Ru => texts_ru(),
        Lang::Pt => texts_pt(),
        Lang::It => texts_it(),
        Lang::Ar => texts_ar(),
        Lang::Hi => texts_hi(),
        Lang::Vi => texts_vi(),
        Lang::Th => texts_th(),
        Lang::Tr => texts_tr(),
        Lang::Pl => texts_pl(),
        Lang::Nl => texts_nl(),
        Lang::Id => texts_id(),
        Lang::Uk => texts_uk(),
        Lang::Cs => texts_cs(),
        Lang::Sv => texts_sv(),
        Lang::El => texts_el(),
        Lang::He => texts_he(),
        Lang::Ro => texts_ro(),
        Lang::Hu => texts_hu(),
        Lang::Da => texts_da(),
        Lang::Fi => texts_fi(),
        Lang::No => texts_no(),
    }
}

/// The texts in the language `lang`.
pub fn msg_for_lang(lang: Lang) -> (r: I18n)
    ensures
        r == texts(lang),
{
    match lang {
        Lang::Zh => I18n {
            about: "自动精简 Rust 源码中冗长的绝对路径为顶层 use，修复 clippy::absolute_paths",
            path: "待检查或处理的文件或目录路径（默认自动向上检索包含 Cargo.toml 的工程根目录）",
            dry_run: "试运行预览模式，仅检查输出，不实际修改文件（默认直接原地修改并格式化）",
            write: "原地修改文件并自动运行 rustfmt（默认开启）",
            check: "检查模式：发现需要简化的绝对路径时以非零状态码退出（用于 CI）",
            max_segments: "最大允许的路径段数，超过则触发简化（默认 2，与 clippy::absolute_paths 一致）",
            keep_segments: "简化后保留的路径段数（默认 1，即只保留最后一级；设为 2 则保留 module::item）",
            allow_crate: "允许保持绝对路径的 crate 白名单（如 std, core 等）",
            extra_crate: "显式指定的额外已知 crate 列表（用于补充或自定义依赖）",
            quiet: "安静模式，不输出修改明细（非交互终端默认开启）",
            show: "显示模式，强制输出修改明细（用于覆盖非交互环境下的默认安静模式）",
            verbose: "详细输出处理日志",
            no_cache: "禁用增量缓存，强制全量重新检查",
            failed_init_runtime: "初始化 compio 运行时失败",
            found_exceeding_limit_parts: ("发现 ", " 个包含超长绝对路径的文件"),
            can_be_simplified_parts: ("\n共 ", " 个文件可被简化，运行不带 `--dry-run` 的命令以应用修改"),
            error_processing_file_parts: ("[warn] 处理文件 ", " 时出错: ", "，已跳过"),
        },
        Lang::En => I18n {
            about: "CLI to replace Rust qualified paths with use statements, fixing clippy::absolute_paths",
            path: "Path to file or directory to process (defaults to project root by searching for Cargo.toml upwards)",
            dry_run: "Preview changes without modifying files (defaults to in-place write and formatting)",
            write: "Modify files in-place and run rustfmt (default)",
            check: "Check mode: exit with non-zero status if qualified paths exceed limit (useful for CI)",
            max_segments: "Maximum segments allowed before simplification (default: 2, matching clippy::absolute_paths)",
            keep_segments: "Number of trailing segments to keep (default: 1; use 2 to keep module::item)",
            allow_crate: "Whitelist of crates allowed to retain qualified paths (e.g. std, core)",
            extra_crate: "Explicitly specified extra known crates (used to supplement dependencies)",
            quiet: "Quiet mode, suppress modification details (default in non-terminal/CI environments)",
            show: "Show details, force outputting modification details (overrides default quiet in non-terminal)",
            verbose: "Verbose processing logs",
            no_cache: "Disable incremental cache, force full recheck",
            failed_init_runtime: "Failed to initialize compio runtime",
            found_exceeding_limit_parts: ("Found ", " file(s) with qualified paths exceeding limit"),
            can_be_simplified_parts: ("\n", " file(s) can be simplified, run without `--dry-run` to apply changes"),
            error_processing_file_parts: ("[warn] Error processing ", ": ", ", skipping"),
        },
        Lang::Ja => I18n {
            about: "Rustソースコード内の冗長な絶対修飾パスをトップレベルuseに自動置換し、clippy::absolute_pathsを修正",
            path: "処理対象のファイルまたはディレクトリパス（デフォルトはCargo.tomlを上位方向に自動検索）",
            dry_run: "ドライラン（変更プレビューのみ行い、ファイルは直接変更しない）",
            write: "ファイルをインプレースで更新し、自動でrustfmtを実行（デフォルト）",
            check: "チェックモード：制限超過パスを検出した場合に非ゼロ終了コードで終了（CI向け）",
            max_segments: "許容される最大パス階層数（デフォルト: 2、clippy::absolute_pathsと同一）",
            keep_segments: "置換後に残す末尾の階層数（デフォルト: 1、2を指定するとmodule::itemを維持）",
            allow_crate: "絶対パスを許容するクレートのホワイトリスト（例: std, core）",
            extra_crate: "明示的に指定する追加の既知クレート一覧（依存関係の補完用）",
            quiet: "サイレントモード、詳細な変更出力を抑制（非端末環境ではデフォルト有効）",
            show: "詳細表示モード、変更詳細を強制出力（非対話環境での静音動作を上書き）",
            verbose: "詳細な処理ログを出力",
            no_cache: "増分キャッシュを無効化し、全ファイルを再チェック",
            failed_init_runtime: "compioランタイムの初期化に失敗しました",
            found_exceeding_limit_parts: ("制限を超える修飾パスを含むファイルが ", " 件見つかりました"),
            can_be_simplified_parts: ("\n", " 件のファイルが単純化可能です。変更を適用するには `--dry-run` なしで実行してください"),
            error_processing_file_parts: ("[warn] ファイル ", " の処理中にエラーが発生しました: ", "（スキップ）"),
        },
        Lang::Ko => I18n {
            about: "Rust 소스 코드의 긴 절대 경로를 최상위 use 문으로 자동 치환하여 clippy::absolute_paths를 수정",
            path: "검사 또는 처리할 파일/디렉터리 경로 (기본값: 상위 방향으로 Cargo.toml 자동 탐색)",
            dry_run: "시뮬레이션 모드: 파일 수정 없이 미리보기만 수행",
            write: "파일을 직접 수정하고 rustfmt 자동 실행 (기본값)",
            check: "검사 모드: 제한 초과 경로 발견 시 0이 아닌 상태 코드로 종료 (CI용)",
            max_segments: "허용되는 최대 경로 세그먼트 수 (기본값: 2, clippy::absolute_paths와 일치)",
            keep_segments: "치환 후 유지할 끝 세그먼트 수 (기본값: 1, 2 지정 시 module::item 유지)",
            allow_crate: "절대 경로 유지를 허용할 크레이트 화이트리스트 (예: std, core)",
            extra_crate: "명시적으로 지정할 추가 크레이트 목록",
            quiet: "조용한 모드: 세부 수정 내역 출력 안 함 (비대화형 환경에서 기본값)",
            show: "표시 모드: 세부 수정 내역 강제 출력",
            verbose: "상세 처리 로그 출력",
            no_cache: "증분 캐시를 비활성화하고 전체 다시 검사",
            failed_init_runtime: "compio 런타임 초기화 실패",
            found_exceeding_limit_parts: ("제한을 초과하는 절대 경로가 포함된 파일 ", "개를 찾았습니다"),
            can_be_simplified_parts: ("\n총 ", "개 파일을 단순화할 수 있습니다. 변경사항을 적용하려면 `--dry-run` 없이 실행하세요"),
            error_processing_file_parts: ("[warn] 파일 ", " 처리 중 오류 발생: ", ", 건너뜀"),
        },
        Lang::Fr => I18n {
            about: "Outil CLI pour remplacer les chemins absolus Rust par des clauses use (corrige clippy::absolute_paths)",
            path: "Chemin du fichier ou répertoire à traiter (recherche Cargo.toml vers le haut par défaut)",
            dry_run: "Mode aperçu sans modifier les fichiers réels",
            write: "Modifier les fichiers sur place et exécuter rustfmt (par défaut)",
            check: "Mode vérification : quitter avec un code non nul si des chemins dépassent la limite (pour CI)",
            max_segments: "Nombre maximal de segments de chemin autorisés (défaut : 2)",
            keep_segments: "Nombre de segments finaux à conserver (défaut : 1 ; 2 pour conserver module::item)",
            allow_crate: "Liste blanche de crates autorisées à conserver leurs chemins absolus",
            extra_crate: "Crates connues supplémentaires spécifiées explicitement",
            quiet: "Mode silencieux, supprime les détails de modification",
            show: "Mode affichage, force la sortie des détails de modification",
            verbose: "Afficher les journaux détaillés",
            no_cache: "Désactiver le cache incrémental et forcer une nouvelle analyse",
            failed_init_runtime: "Échec de l'initialisation du runtime compio",
            found_exceeding_limit_parts: ("", " fichier(s) contenant des chemins dépassant la limite trouvés"),
            can_be_simplified_parts: ("\n", " fichier(s) peuvent être simplifiés, exécutez sans `--dry-run` pour appliquer"),
            error_processing_file_parts: ("[warn] Erreur lors du traitement de ", " : ", ", ignoré"),
        },
        Lang::De => I18n {
            about: "CLI-Tool zum Ersetzen absoluter Rust-Pfade durch use-Anweisungen (behebt clippy::absolute_paths)",
            path: "Pfad zur zu verarbeitenden Datei oder zum Verzeichnis (sucht standardmäßig aufwärts nach Cargo.toml)",
            dry_run: "Testlauf-Modus: Vorschau ohne tatsächliche Dateiänderungen",
            write: "Dateien direkt ändern und rustfmt ausführen (Standard)",
            check: "Prüfmodus: Beendet mit Fehlercode, falls Pfade das Limit überschreiten (für CI)",
            max_segments: "Maximal zulässige Pfadsegmente vor Vereinfachung (Standard: 2)",
            keep_segments: "Anzahl der beizubehaltenden Endsegmente (Standard: 1; 2 für module::item)",
            allow_crate: "Whitelist von Crates, die absolute Pfade behalten dürfen",
            extra_crate: "Explizit angegebene zusätzliche bekannte Crates",
            quiet: "Stiller Modus, unterdrückt Änderungsdetails",
            show: "Anzeigemodus, erzwingt die Ausgabe von Änderungsdetails",
            verbose: "Ausführliche Verarbeitungsprotokolle ausgeben",
            no_cache: "Inkrementellen Cache deaktivieren und vollständige Neuprüfung erzwingen",
            failed_init_runtime: "Fehler beim Initialisieren der compio-Laufzeitumgebung",
            found_exceeding_limit_parts: ("", " Datei(en) mit unzulässig langen Pfaden gefunden"),
            can_be_simplified_parts: ("\n", " Datei(en) können vereinfacht werden, ohne `--dry-run` ausführen zum Anwenden"),
            error_processing_file_parts: ("[warn] Fehler beim Verarbeiten von ", ": ", ", übersprungen"),
        },
        Lang::Es => I18n {
            about: "Herramienta CLI para reemplazar rutas absolutas de Rust por declaraciones use (corrige clippy::absolute_paths)",
            path: "Ruta del archivo o directorio a procesar (por defecto busca Cargo.toml hacia arriba)",
            dry_run: "Modo de prueba preliminar sin modificar los archivos",
            write: "Modificar archivos in situ y ejecutar rustfmt (por defecto)",
            check: "Modo de comprobación: salir con código no nulo si se exceden los límites (para CI)",
            max_segments: "Segmentos máximos permitidos antes de simplificar (por defecto: 2)",
            keep_segments: "Número de segmentos finales a conservar (por defecto: 1; 2 para module::item)",
            allow_crate: "Lista blanca de crates autorizados para mantener rutas absolutas",
            extra_crate: "Crates conocidos adicionales especificados explícitamente",
            quiet: "Modo silencioso, oculta los detalles de las modificaciones",
            show: "Modo de visualización, fuerza la impresión de detalles modificados",
            verbose: "Mostrar registros de procesamiento detallados",
            no_cache: "Desactivar la caché incremental y forzar una nueva comprobación completa",
            failed_init_runtime: "Error al inicializar el entorno de ejecución compio",
            found_exceeding_limit_parts: ("Se encontraron ", " archivo(s) con rutas que superan el límite"),
            can_be_simplified_parts: ("\n", " archivo(s) se pueden simplificar, ejecute sin `--dry-run` para aplicar"),
            error_processing_file_parts: ("[warn] Error al procesar ", ": ", ", omitido"),
        },
        Lang::Ru => I18n {
            about: "CLI to replace Rust qualified paths with use statements, fixing clippy::absolute_paths",
            path: "Path to file or directory to process (defaults to project root by searching for Cargo.toml upwards)",
            dry_run: "Preview changes without modifying files (defaults to in-place write and formatting)",
            write: "Modify files in-place and run rustfmt (default)",
            check: "Check mode: exit with non-zero status if qualified paths exceed limit (useful for CI)",
            max_segments: "Maximum segments allowed before simplification (default: 2, matching clippy::absolute_paths)",
            keep_segments: "Number of trailing segments to keep (default: 1; use 2 to keep module::item)",
            allow_crate: "Whitelist of crates allowed to retain qualified paths (e.g. std, core)",
            extra_crate: "Explicitly specified extra known crates (used to supplement dependencies)",
            quiet: "Quiet mode, suppress modification details (default in non-terminal/CI environments)",
            show: "Show details, force outputting modification details (overrides default quiet in non-terminal)",
            verbose: "Verbose processing logs",
            no_cache: "Disable incremental cache, force full recheck",
            failed_init_runtime: "Failed to initialize compio runtime",
            found_exceeding_limit_parts: ("Found ", " file(s) with qualified paths exceeding limit"),
            can_be_simplified_parts: ("\n", " file(s) can be simplified, run without `--dry-run` to apply changes"),
            error_processing_file_parts: ("[warn] Error processing ", ": ", ", skipping"),
        },
        Lang::Pt => I18n {
            about: "Ferramenta CLI para substituir caminhos absolutos do Rust por declarações use (corrige clippy::absolute_paths)",
            path: "Caminho para o arquivo ou diretório a processar (busca Cargo.toml para cima por padrão)",
            dry_run: "Modo de simulação sem modificar os arquivos reais",
            write: "Modificar arquivos no local e executar rustfmt (padrão)",
            check: "Modo de verificação: sair com código diferente de zero se limites forem excedidos (para CI)",
            max_segments: "Segmentos máximos de caminho permitidos antes da simplificação (padrão: 2)",
            keep_segments: "Número de segmentos finais a manter (padrão: 1; 2 para manter module::item)",
            allow_crate: "Lista de permissões de crates autorizadas a manter caminhos absolutos",
            extra_crate: "Crates conhecidas adicionais especificadas explicitamente",
            quiet: "Modo silencioso, oculta detalhes das modificações",
            show: "Modo de exibição, força a impressão dos detalhes modificados",
            verbose: "Exibir logs de processamento detalhados",
            no_cache: "Desativar cache incremental e forçar nova verificação completa",
            failed_init_runtime: "Falha ao inicializar o runtime compio",
            found_exceeding_limit_parts: ("", " arquivo(s) com caminhos que excedem o limite encontrados"),
            can_be_simplified_parts: ("\n", " arquivo(s) podem ser simplificados, execute sem `--dry-run` para aplicar"),
            error_processing_file_parts: ("[warn] Erro ao processar ", ": ", ", ignorado"),
        },
        Lang::It => I18n {
            about: "Strumento CLI per sostituire i percorsi assoluti Rust con use (corregge clippy::absolute_paths)",
            path: "Percorso del file o della directory da elaborare (cerca Cargo.toml verso l'alto per impostazione predefinita)",
            dry_run: "Modalità di prova senza modificare i file effettivi",
            write: "Modifica i file sul posto ed esegue rustfmt (predefinito)",
            check: "Modalità di controllo: esce con stato diverso da zero se i percorsi superano il limite (per CI)",
            max_segments: "Segmenti di percorso massimi consentiti prima della semplificazione (predefinito: 2)",
            keep_segments: "Numero di segmenti finali da mantenere (predefinito: 1; 2 per mantenere module::item)",
            allow_crate: "Whitelist di crate autorizzati a mantenere percorsi assoluti",
            extra_crate: "Ulteriori crate noti specificati esplicitamente",
            quiet: "Modalità silenziosa, sopprime i dettagli delle modifiche",
            show: "Modalità di visualizzazione, forza l'output dei dettagli modificati",
            verbose: "Visualizza log di elaborazione dettagliati",
            no_cache: "Disattiva la cache incrementale e forza un controllo completo",
            failed_init_runtime: "Inizializzazione del runtime compio non riuscita",
            found_exceeding_limit_parts: ("Trovati ", " file con percorsi che superano il limite"),
            can_be_simplified_parts: ("\n", " file possono essere semplificati, eseguire senza `--dry-run` per applicare"),
            error_processing_file_parts: ("[warn] Errore durante l'elaborazione di ", ": ", ", ignorato"),
        },
        Lang::Ar => I18n {
            about: "أداة لاستبدال المسارات المؤهلة في Rust بعبارات use، وإصلاح clippy::absolute_paths",
            path: "مسار الملف أو الدليل المراد معالجته (يبحث تلقائيًا عن Cargo.toml لأعلى)",
            dry_run: "وضع المعاينة دون تعديل الملفات فعليًا",
            write: "تعديل الملفات مباشرة وتشغيل rustfmt تلقائيًا (افتراضي)",
            check: "وضع التحقق: الإنهاء برمز غير صفري إذا تجاوزت المسارات الحد المسموح به",
            max_segments: "الحد الأقصى المسموح به لأجزاء المسار قبل التبسيط (افتراضي: 2)",
            keep_segments: "عدد الأجزاء النهائية المراد الاحتفاظ بها (افتراضي: 1)",
            allow_crate: "القائمة البيضاء للحزم المسموح لها بالاحتفاظ بمسارات مطلقة",
            extra_crate: "حزم معروفة إضافية محددة صراحة",
            quiet: "الوضع الصامت، كتم تفاصيل التعديلات",
            show: "وضع العرض، فرض إخراج تفاصيل التعديل",
            verbose: "إخراج سجلات المعالجة التفصيلية",
            no_cache: "تعطيل ذاكرة التخزين المؤقت وإعادة الفحص الكامل",
            failed_init_runtime: "فشل في تهيئة بيئة تشغيل compio",
            found_exceeding_limit_parts: ("تم العثور على ", " ملف(ات) تتجاوز الحد المسموح به للمسارات"),
            can_be_simplified_parts: ("\nيمكن تبسيط ", " ملف(ات)، قم بالتشغيل بدون `--dry-run` لتطبيق التغييرات"),
            error_processing_file_parts: ("[warn] خطأ أثناء معالجة ", ": ", "، تم التخطي"),
        },
        Lang::Hi => I18n {
            about: "Rust में पूर्ण पथों को use कथनों से बदलने और clippy::absolute_paths को ठीक करने का CLI टूल",
            path: "जांच या संसाधित करने के लिए फ़ाइल या निर्देशिका पथ (डिफ़ॉल्ट रूप से ऊपर Cargo.toml खोजता है)",
            dry_run: "फ़ाइलों को संशोधित किए बिना केवल पूर्वावलोकन मोड",
            write: "फ़ाइलों को सीधे संशोधित करें और स्वतः rustfmt चलाएं (डिफ़ॉल्ट)",
            check: "जांच मोड: यदि पथ सीमा से अधिक हैं तो गैर-शून्य कोड के साथ बाहर निकलें",
            max_segments: "सरलीकरण से पहले अधिकतम अनुमत पथ खंड (डिफ़ॉल्ट: 2)",
            keep_segments: "रखे जाने वाले अंतिम खंडों की संख्या (डिफ़ॉल्ट: 1)",
            allow_crate: "पूर्ण पथ बनाए रखने के लिए अनुमत क्रेट्स की श्वेतसूची",
            extra_crate: "स्पष्ट रूप से निर्दिष्ट अतिरिक्त ज्ञात क्रेट्स",
            quiet: "शांत मोड, संशोधन विवरण छुपाएं",
            show: "प्रदर्शन मोड, संशोधन विवरण प्रदर्शित करने के लिए बाध्य करें",
            verbose: "विस्तृत प्रोसेसिंग लॉग दिखाएं",
            no_cache: "इंक्रीमेंटल कैश अक्षम करें और पूर्ण पुनः जांच करें",
            failed_init_runtime: "compio रनटाइम प्रारंभ करने में विफल",
            found_exceeding_limit_parts: ("सीमा से अधिक पथों वाली ", " फ़ाइलें मिलीं"),
            can_be_simplified_parts: ("\n", " फ़ाइलों को सरल बनाया जा सकता है, परिवर्तनों को लागू करने के लिए बिना `--dry-run` के चलाएं"),
            error_processing_file_parts: ("[warn] फ़ाइल ", " को संसाधित करने में त्रुटि: ", ", छोड़ दिया गया"),
        },
        Lang::Vi => I18n {
            about: "Công cụ dòng lệnh thay thế đường dẫn tuyệt đối trong Rust bằng use, sửa clippy::absolute_paths",
            path: "Đường dẫn tệp hoặc thư mục cần xử lý (mặc định tự động tìm Cargo.toml lên trên)",
            dry_run: "Chế độ chạy thử, chỉ xem trước mà không sửa tệp thực tế",
            write: "Sửa đổi tệp trực tiếp và tự động chạy rustfmt (mặc định)",
            check: "Chế độ kiểm tra: thoát với mã khác 0 nếu phát hiện đường dẫn vượt quá giới hạn",
            max_segments: "Số phân đoạn đường dẫn tối đa cho phép trước khi rút gọn (mặc định: 2)",
            keep_segments: "Số phân đoạn cuối cần giữ lại (mặc định: 1; đặt 2 để giữ module::item)",
            allow_crate: "Danh sách trắng các crate được phép giữ đường dẫn tuyệt đối",
            extra_crate: "Các crate đã biết bổ sung được chỉ định rõ ràng",
            quiet: "Chế độ yên lặng, không xuất chi tiết chỉnh sửa",
            show: "Chế độ hiển thị, buộc xuất chi tiết chỉnh sửa",
            verbose: "Xuất nhật ký xử lý chi tiết",
            no_cache: "Vô hiệu hóa bộ nhớ đệm và buộc kiểm tra lại toàn bộ",
            failed_init_runtime: "Không thể khởi tạo môi trường thực thi compio",
            found_exceeding_limit_parts: ("Đã tìm thấy ", " tệp có đường dẫn vượt quá giới hạn"),
            can_be_simplified_parts: ("\nCó thể rút gọn ", " tệp, chạy không có `--dry-run` để áp dụng thay đổi"),
            error_processing_file_parts: ("[warn] Lỗi khi xử lý ", ": ", ", đã bỏ qua"),
        },
        Lang::Th => I18n {
            about: "เครื่องมือ CLI สำหรับแทนที่พาธแบบเต็มใน Rust ด้วยคำสั่ง use และแก้ไข clippy::absolute_paths",
            path: "พาธของไฟล์หรือไดเรกทอรีที่ต้องการประมวลผล (ค้นหา Cargo.toml ย้อนขึ้นไปโดยค่าเริ่มต้น)",
            dry_run: "โหมดทดลองใช้เพื่อดูตัวอย่างโดยไม่แก้ไขไฟล์จริง",
            write: "แก้ไขไฟล์โดยตรงและรัน rustfmt อัตโนมัติ (ค่าเริ่มต้น)",
            check: "โหมดตรวจสอบ: ออกด้วยรหัสข้อผิดพลาดหากพบพาธที่เกินขีดจำกัด",
            max_segments: "จำนวนส่วนพาธสูงสุดที่อนุญาตก่อนย่อให้สั้นลง (ค่าเริ่มต้น: 2)",
            keep_segments: "จำนวนส่วนพาธท้ายสุดที่ต้องการคงไว้ (ค่าเริ่มต้น: 1)",
            allow_crate: "ไวท์ลิสต์ของ crate ที่อนุญาตให้ใช้พาธแบบเต็มได้",
            extra_crate: "crate เพิ่มเติมที่ระบุไว้อย่างชัดเจน",
            quiet: "โหมดเงียบ ซ่อนรายละเอียดการแก้ไข",
            show: "โหมดแสดงผล บังคับแสดงรายละเอียดการแก้ไข",
            verbose: "แสดงบันทึกการประมวลผลโดยละเอียด",
            no_cache: "ปิดใช้งานแคชและบังคับตรวจสอบใหม่ทั้งหมด",
            failed_init_runtime: "การเตรียมพร้อมการทำงานของ compio ล้มเหลว",
            found_exceeding_limit_parts: ("พบ ", " ไฟล์ที่มีพาธเกินขีดจำกัด"),
            can_be_simplified_parts: ("\nสามารถย่อพาธได้ ", " ไฟล์ รันโดยไม่ใส่ `--dry-run` เพื่อใช้การเปลี่ยนแปลง"),
            error_processing_file_parts: ("[warn] เกิดข้อผิดพลาดขณะประมวลผล ", ": ", " ข้ามไป"),
        },
        Lang::Tr => I18n {
            about: "Rust kaynak kodundaki uzun mutlak yolları use bildirimleriyle değiştiren ve clippy::absolute_paths kuralını düzelten CLI aracı",
            path: "İşlenecek dosya veya dizin yolu (varsayılan olarak yukarı doğru Cargo.toml arar)",
            dry_run: "Dosyaları değiştirmeden önizleme yapan deneme modu",
            write: "Dosyaları yerinde değiştir ve rustfmt çalıştır (varsayılan)",
            check: "Kontrol modu: sınırı aşan yol bulunursa sıfır olmayan kodla çık (CI için)",
            max_segments: "Basitleştirmeden önce izin verilen maksimum yol segmenti (varsayılan: 2)",
            keep_segments: "Basitleştirmeden sonra tutulacak son segment sayısı (varsayılan: 1)",
            allow_crate: "Mutlak yolları korumasına izin verilen paketlerin beyaz listesi",
            extra_crate: "Açıkça belirtilen ek bilinen paketler",
            quiet: "Sessiz mod, değişiklik ayrıntılarını gizle",
            show: "Görüntüleme modu, değişiklik ayrıntılarını zorla göster",
            verbose: "Ayrıntılı işlem günlüklerini göster",
            no_cache: "Artımlı önbelleği devre dışı bırak ve tam yeniden denetim yap",
            failed_init_runtime: "compio çalışma zamanı başlatılamadı",
            found_exceeding_limit_parts: ("Sınırı aşan yollara sahip ", " dosya bulundu"),
            can_be_simplified_parts: ("\n", " dosya basitleştirilebilir, değişiklikleri uygulamak için `--dry-run` olmadan çalıştırın"),
            error_processing_file_parts: ("[warn] ", " işlenirken hata oluştu: ", ", atlandı"),
        },
        Lang::Pl => I18n {
            about: "Narzędzie CLI do zastępowania pełnych ścieżek Rust instrukcjami use (naprawia clippy::absolute_paths)",
            path: "Ścieżka do pliku lub katalogu (domyślnie wyszukuje Cargo.toml w górę)",
            dry_run: "Tryb próbny bez modyfikowania rzeczywistych plików",
            write: "Modyfikuj pliki w miejscu i uruchamiaj rustfmt (domyślnie)",
            check: "Tryb sprawdzania: zakończ z kodem błędu, jeśli ścieżki przekraczają limit (dla CI)",
            max_segments: "Maksymalna dozwolona liczba segmentów ścieżki (domyślnie: 2)",
            keep_segments: "Liczba końcowych segmentów do zachowania (domyślnie: 1)",
            allow_crate: "Biała lista skrzynek (crates), które mogą zachować pełne ścieżki",
            extra_crate: "Dodatkowe znane skrzynki określone jawnie",
            quiet: "Tryb cichy, ukrywa szczegóły modyfikacji",
            show: "Tryb wyświetlania, wymusza wypisanie szczegółów modyfikacji",
            verbose: "Szczegółowe dzienniki przetwarzania",
            no_cache: "Wyłącz pamięć podręczną i wymuś pełną ponowną weryfikację",
            failed_init_runtime: "Nie udało się zainicjować środowiska wykonawczego compio",
            found_exceeding_limit_parts: ("Znaleziono ", " plik(ów) ze ścieżkami przekraczającymi limit"),
            can_be_simplified_parts: ("\nMożna uprościć ", " plik(ów), uruchom bez `--dry-run`, aby zastosować zmiany"),
            error_processing_file_parts: ("[warn] Błąd podczas przetwarzania ", ": ", ", pomijanie"),
        },
        Lang::Nl => I18n {
            about: "CLI-tool om absolute Rust-paden te vervangen door use-instructies (herstelt clippy::absolute_paths)",
            path: "Pad naar bestand of map om te verwerken (zoekt standaard naar boven naar Cargo.toml)",
            dry_run: "Voorbeeldmodus zonder bestanden daadwerkelijk te wijzigen",
            write: "Wijzig bestanden ter plaatse en voer rustfmt uit (standaard)",
            check: "Controlemodus: sluit af met foutcode als paden de limiet overschrijden (voor CI)",
            max_segments: "Maximaal toegestane padsegmenten vóór vereenvoudiging (standaard: 2)",
            keep_segments: "Aantal te behouden eindsegmenten (standaard: 1)",
            allow_crate: "Witte lijst van crates die absolute paden mogen behouden",
            extra_crate: "Expliciet opgegeven extra bekende crates",
            quiet: "Stille modus, verbergt wijzigingsdetails",
            show: "Weergavemodus, forceert het tonen van wijzigingsdetails",
            verbose: "Gedetailleerde verwerkingslogboeken weergeven",
            no_cache: "Incrementele cache uitschakelen en volledige hercontrole forceren",
            failed_init_runtime: "Initialiseren van compio-runtime mislukt",
            found_exceeding_limit_parts: ("", " bestand(en) gevonden met paden die de limiet overschrijden"),
            can_be_simplified_parts: ("\n", " bestand(en) kunnen worden vereenvoudigd, voer uit zonder `--dry-run` om toe te passen"),
            error_processing_file_parts: ("[warn] Fout bij verwerken van ", ": ", ", overgeslagen"),
        },
        Lang::Id => I18n {
            about: "Alat CLI untuk mengganti jalur absolut Rust dengan pernyataan use, memperbaiki clippy::absolute_paths otomatis",
            path: "Jalur berkas atau direktori yang akan diproses (mencari Cargo.toml ke atas secara default)",
            dry_run: "Mode uji coba pratinjau tanpa memodifikasi berkas sebenarnya",
            write: "Ubah berkas secara langsung dan jalankan rustfmt (default)",
            check: "Mode pemeriksaan: keluar dengan status bukan nol jika jalur melebihi batas (untuk CI)",
            max_segments: "Segmen jalur maksimum yang diizinkan sebelum penyederhanaan (default: 2)",
            keep_segments: "Jumlah segmen akhir yang dipertahankan (default: 1; gunakan 2 untuk module::item)",
            allow_crate: "Daftar putih crate yang diizinkan mempertahankan jalur absolut",
            extra_crate: "Crate tambahan yang diketahui dan ditentukan secara eksplisit",
            quiet: "Mode hening, sembunyikan rincian modifikasi",
            show: "Mode tampilan, paksa menampilkan rincian modifikasi",
            verbose: "Tampilkan log pemrosesan terperinci",
            no_cache: "Nonaktifkan cache inkremental dan paksa pemeriksaan ulang penuh",
            failed_init_runtime: "Gagal menginisialisasi runtime compio",
            found_exceeding_limit_parts: ("Ditemukan ", " berkas dengan jalur yang melebihi batas"),
            can_be_simplified_parts: ("\n", " berkas dapat disederhanakan, jalankan tanpa `--dry-run` untuk menerapkan perubahan"),
            error_processing_file_parts: ("[warn] Terjadi kesalahan saat memproses ", ": ", ", dilewati"),
        },
        Lang::Uk => I18n {
            about: "Утиліта CLI для заміни абсолютних шляхів Rust на use, автоматичне виправлення clippy::absolute_paths",
            path: "Шлях до файлу або каталогу (за замовчуванням шукає Cargo.toml вгору)",
            dry_run: "Режим попереднього перегляду без фактичної зміни файлів",
            write: "Змінювати файли на місці та запускати rustfmt (за замовчуванням)",
            check: "Режим перевірки: вихід із ненульовим кодом у разі перевищення ліміту шляхів (для CI)",
            max_segments: "Максимальна дозволена кількість сегментів шляху (за замовчуванням: 2)",
            keep_segments: "Кількість кінцевих сегментів для збереження (за замовчуванням: 1)",
            allow_crate: "Білий список крейтів, яким дозволено зберігати абсолютні шляхи",
            extra_crate: "Явно вказані додаткові відомі крейти",
            quiet: "Тихий режим, приховує деталі змін",
            show: "Режим показу, примусово виводить деталі змін",
            verbose: "Докладні журнали обробки",
            no_cache: "Вимкнути інкрементний кеш і примусово перевірити все наново",
            failed_init_runtime: "Не вдалося ініціалізувати середовище compio",
            found_exceeding_limit_parts: ("Знайдено ", " файл(ів) із перевищенням довжини шляхів"),
            can_be_simplified_parts: ("\nМожна спростити ", " файл(ів), запустіть без `--dry-run` для застосування змін"),
            error_processing_file_parts: ("[warn] Помилка обробки ", ": ", ", пропущено"),
        },
        Lang::Cs => I18n {
            about: "Nástroj CLI pro nahrazení absolutních cest v Rustu příkazy use (opravuje clippy::absolute_paths)",
            path: "Cesta k souboru nebo adresáři (ve výchozím nastavení hledá Cargo.toml směrem nahoru)",
            dry_run: "Režim náhledu bez skutečné úpravy souborů",
            write: "Upravit soubory na místě a spustit rustfmt (výchozí)",
            check: "Režim kontroly: ukončit s nenulovým kódem, pokud cesty překročí limit (pro CI)",
            max_segments: "Maximální povolený počet segmentů cesty před zjednodušením (výchozí: 2)",
            keep_segments: "Počet koncových segmentů k zachování (výchozí: 1)",
            allow_crate: "Seznam povolených beden (crates), které si mohou ponechat absolutní cesty",
            extra_crate: "Explicitně zadané další známé crates",
            quiet: "Tichý režim, potlačí podrobnosti o úpravách",
            show: "Režim zobrazení, vynutí výpis podrobností o úpravách",
            verbose: "Zobrazit podrobné protokoly zpracování",
            no_cache: "Zakázat přírůstkovou mezipaměť a vynutit úplnou novou kontrolu",
            failed_init_runtime: "Inicializace modulu runtime compio se nezdařila",
            found_exceeding_limit_parts: ("Nalezeno ", " souborů s cestami překračujícími limit"),
            can_be_simplified_parts: ("\nLze zjednodušit ", " souborů, spusťte bez `--dry-run` pro aplikaci změn"),
            error_processing_file_parts: ("[warn] Chyba při zpracování ", ": ", ", přeskočeno"),
        },
        Lang::Sv => I18n {
            about: "CLI-verktyg för att ersätta absoluta Rust-sökvägar med use-satser (åtgärdar clippy::absolute_paths)",
            path: "Sökväg till fil eller katalog som ska bearbetas (söker uppåt efter Cargo.toml som standard)",
            dry_run: "Förhandsgranskningsläge utan att faktiskt ändra filer",
            write: "Ändra filer på plats och kör rustfmt automatiskt (standard)",
            check: "Kontrolläge: avsluta med felkod om sökvägar överskrider gränsen (för CI)",
            max_segments: "Maximalt antal tillåtna sökvägssegment före förenkling (standard: 2)",
            keep_segments: "Antal avslutande segment att behålla (standard: 1)",
            allow_crate: "Vitlista över crates som tillåts behålla absoluta sökvägar",
            extra_crate: "Ytterligare kända crates som specificerats uttryckligen",
            quiet: "Tyst läge, döljer ändringsdetaljer",
            show: "Visningsläge, tvingar utskrift av ändringsdetaljer",
            verbose: "Visa detaljerade bearbetningsloggar",
            no_cache: "Inaktivera inkrementell cache och tvinga fullständig omkontroll",
            failed_init_runtime: "Kunde inte initiera compio-körtid",
            found_exceeding_limit_parts: ("Hittade ", " fil(er) med sökvägar som överskrider gränsen"),
            can_be_simplified_parts: ("\n", " fil(er) kan förenklas, kör utan `--dry-run` för att tillämpa ändringar"),
            error_processing_file_parts: ("[warn] Fel vid bearbetning av ", ": ", ", hoppar över"),
        },
        Lang::El => I18n {
            about: "Εργαλείο CLI για την αντικατάσταση απόλυτων διαδρομών Rust με δηλώσεις use (διορθώνει clippy::absolute_paths)",
            path: "Διαδρομή αρχείου ή καταλόγου προς επεξεργασία (αναζητά Cargo.toml προς τα πάνω)",
            dry_run: "Λειτουργία προεπισκόπησης χωρίς τροποποίηση των πραγματικών αρχείων",
            write: "Τροποποίηση αρχείων επί τόπου και αυτόματη εκτέλεση rustfmt (προεπιλογή)",
            check: "Λειτουργία ελέγχου: έξοδος με μη μηδενικό κωδικό εάν οι διαδρομές υπερβαίνουν το όριο",
            max_segments: "Μέγιστα επιτρεπόμενα τμήματα διαδρομής πριν από την απλοποίηση (προεπιλογή: 2)",
            keep_segments: "Αριθμός τελικών τμημάτων προς διατήρηση (προεπιλογή: 1)",
            allow_crate: "Λίστα επιτρεπόμενων crates για διατήρηση απόλυτων διαδρομών",
            extra_crate: "Επιπλέον γνωστά crates που καθορίζονται ρητά",
            quiet: "Αθόρυβη λειτουργία, απόκρυψη λεπτομερειών τροποποίησης",
            show: "Λειτουργία εμφάνισης, επιβολή εμφάνισης λεπτομερειών τροποποίησης",
            verbose: "Εμφάνιση λεπτομερών καταγραφών επεξεργασίας",
            no_cache: "Απενεργοποίηση σταδιακής προσωρινής μνήμης και πλήρης επανέλεγχος",
            failed_init_runtime: "Αποτυχία προετοιμασίας του περιβάλλοντος εκτέλεσης compio",
            found_exceeding_limit_parts: ("Βρέθηκαν ", " αρχεία με διαδρομές που υπερβαίνουν το όριο"),
            can_be_simplified_parts: ("\n", " αρχεία μπορούν να απλοποιηθούν, εκτελέστε χωρίς `--dry-run` για εφαρμογή"),
            error_processing_file_parts: ("[warn] Σφάλμα κατά την επεξεργασία του ", ": ", ", παράβλεψη"),
        },
        Lang::He => I18n {
            about: "כלי CLI להחלפת נתיבים מלאים ב-Rust בהצהרות use, ותיקון clippy::absolute_paths",
            path: "נתיב לקובץ או לתיקייה לעיבוד (מחפש Cargo.toml כלפי מעלה כברירת מחדל)",
            dry_run: "מצב תצוגה מקדימה ללא שינוי קבצים בפועל",
            write: "עריכת קבצים במקום והפעלת rustfmt אוטומטית (ברירת מחדל)",
            check: "מצב בדיקה: יציאה עם קוד שגיאה אם יש נתיבים החורגים מהמגבלה",
            max_segments: "מספר מקטעי נתיב מרבי מותר לפני פישוט (ברירת מחדל: 2)",
            keep_segments: "מספר מקטעים סופיים שיש לשמור (ברירת מחדל: 1)",
            allow_crate: "רשימת crates מורשים לשמירה על נתיבים מלאים",
            extra_crate: "crates נוספים שצוינו במפורש",
            quiet: "מצב שקט, הסתרת פרטי שינויים",
            show: "מצב תצוגה, הצגת פרטי שינויים באופן מאולץ",
            verbose: "הצגת יומני עיבוד מפורטים",
            no_cache: "השבתת מטמון ובדיקה מלאה מחדש",
            failed_init_runtime: "אתחול סביבת compio נכשל",
            found_exceeding_limit_parts: ("נמצאו ", " קבצים עם נתיבים החורגים מהמגבלה"),
            can_be_simplified_parts: ("\nניתן לפשט ", " קבצים, הפעל ללא `--dry-run` כדי להחיל שינויים"),
            error_processing_file_parts: ("[warn] שגיאה בעיבוד ", ": ", ", מדלג"),
        },
        Lang::Ro => I18n {
            about: "Instrument CLI pentru înlocuirea căilor absolute din Rust cu instrucțiuni use (repară clippy::absolute_paths)",
            path: "Calea către fișierul sau directorul de procesat (caută Cargo.toml în sus în mod implicit)",
            dry_run: "Mod previzualizare fără modificarea fișierelor",
            write: "Modifică fișierele pe loc și rulează automat rustfmt (implicit)",
            check: "Mod verificare: ieșire cu cod diferit de zero dacă se depășește limita (pentru CI)",
            max_segments: "Segmente maxime de cale permise înainte de simplificare (implicit: 2)",
            keep_segments: "Număr de segmente finale de păstrat (implicit: 1)",
            allow_crate: "Lista albă a pachetelor cărora li se permite păstrarea căilor absolute",
            extra_crate: "Pachete suplimentare specificate explicit",
            quiet: "Mod silențios, ascunde detaliile modificărilor",
            show: "Mod afișare, forțează afișarea detaliilor modificărilor",
            verbose: "Afișează jurnale detaliate de procesare",
            no_cache: "Dezactivează memoria cache incrementală și forțează reverificarea completă",
            failed_init_runtime: "Inițializarea runtime-ului compio a eșuat",
            found_exceeding_limit_parts: ("Au fost găsite ", " fișiere cu căi ce depășesc limita"),
            can_be_simplified_parts: ("\n", " fișiere pot fi simplificate, rulați fără `--dry-run` pentru a aplica"),
            error_processing_file_parts: ("[warn] Eroare la procesarea ", ": ", ", se omite"),
        },
        Lang::Hu => I18n {
            about: "CLI eszköz a Rust abszolút útvonalak use utasításokra cserélésére (javítja a clippy::absolute_paths hibát)",
            path: "A feldolgozandó fájl vagy könyvtár útvonala (alapértelmezés szerint felfelé keresi a Cargo.toml fájlt)",
            dry_run: "Előnézeti mód a fájlok tényleges módosítása nélkül",
            write: "Fájlok helyben módosítása és a rustfmt automatikus futtatása (alapértelmezett)",
            check: "Ellenőrző mód: kilépés hibakóddal, ha az útvonalak túllépik a korlátot (CI-hez)",
            max_segments: "A simplification előtt engedélyezett maximális útvonalszegmensek száma (alapértelmezett: 2)",
            keep_segments: "A megőrizendő záró szegmensek száma (alapértelmezett: 1)",
            allow_crate: "Azon csomagok fehérlistája, amelyek megtarthatják az abszolút útvonalakat",
            extra_crate: "Kifejezetten megadott további ismert csomagok",
            quiet: "Csendes mód, módosítási részletek elrejtése",
            show: "Megjelenítési mód, módosítási részletek kényszerített kiírása",
            verbose: "Részletes feldolgozási naplók megjelenítése",
            no_cache: "Növekményes gyorsítótár letiltása és teljes újravizsgálat kényszerítése",
            failed_init_runtime: "A compio futtatókörnyezet inicializálása sikertelen",
            found_exceeding_limit_parts: ("", " korlátot meghaladó útvonalat tartalmazó fájl található"),
            can_be_simplified_parts: ("\n", " fájl egyszerűsíthető, futtassa a `--dry-run` nélkül a módosítások alkalmazásához"),
            error_processing_file_parts: ("[warn] Hiba a(z) ", " feldolgozásakor: ", ", kihagyva"),
        },
        Lang::Da => I18n {
            about: "CLI-værktøj til at erstatte absolutte Rust-stier med use-sætninger (retter clippy::absolute_paths)",
            path: "Sti til fil eller mappe, der skal behandles (søger opad efter Cargo.toml som standard)",
            dry_run: "Forhåndsvisningstilstand uden at ændre filer",
            write: "Rediger filer direkte og kør rustfmt automatisk (standard)",
            check: "Kontroltilstand: afslut med fejlkode, hvis stier overskrider grænsen (til CI)",
            max_segments: "Maksimalt tilladte stisegmenter før forenkling (standard: 2)",
            keep_segments: "Antal afsluttende segmenter, der skal bevares (standard: 1)",
            allow_crate: "Hvidliste over crates, der må beholde absolutte stier",
            extra_crate: "Eksplicit angivne ekstra kendte crates",
            quiet: "Stille tilstand, skjul ændringsdetaljer",
            show: "Visningstilstand, gennemtving udskrift af ændringsdetaljer",
            verbose: "Vis detaljerede behandlingslogger",
            no_cache: "Deaktiver trinvis cache og gennemtving fuld genkontrol",
            failed_init_runtime: "Kunne ikke initialisere compio-køretid",
            found_exceeding_limit_parts: ("Fandt ", " fil(er) med stier, der overskrider grænsen"),
            can_be_simplified_parts: ("\n", " fil(er) kan forenkles, kør uden `--dry-run` for at anvende ændringer"),
            error_processing_file_parts: ("[warn] Fejl under behandling af ", ": ", ", springer over"),
        },
        Lang::Fi => I18n {
            about: "CLI-työkalu Rustin absoluuttisten polkujen korvaamiseen use-lauseilla (korjaa clippy::absolute_paths)",
            path: "Käsiteltävän tiedoston tai hakemiston polku (etsii oletuksena Cargo.toml-tiedostoa ylöspäin)",
            dry_run: "Esikatselutila muuttamatta tiedostoja todellisuudessa",
            write: "Muokkaa tiedostoja suoraan ja suorita rustfmt automaattisesti (oletus)",
            check: "Tarkistustila: poistu virhekoodilla, jos polut ylittävät rajan (CI-käyttöön)",
            max_segments: "Suurin sallittu polkusegmenttien määrä ennen yksinkertaistamista (oletus: 2)",
            keep_segments: "Säilytettävien loppusegmenttien määrä (oletus: 1)",
            allow_crate: "Sallittujen pakettien luettelo, jotka voivat säilyttää absoluuttiset polut",
            extra_crate: "Erikseen määritellyt tunnetut lisäpaketit",
            quiet: "Hiljainen tila, piilota muutosten tiedot",
            show: "Näyttötila, pakota muutosten tietojen tulostaminen",
            verbose: "Näytä yksityiskohtaiset käsittelylokit",
            no_cache: "Poista välimuisti käytöstä ja suorita täysi uudelleentarkistus",
            failed_init_runtime: "compio-suoritusympäristön alustaminen epäonnistui",
            found_exceeding_limit_parts: ("Löytyi ", " tiedosto(a), joiden polut ylittävät rajan"),
            can_be_simplified_parts: ("\n", " tiedosto(a) voidaan yksinkertaistaa, suorita ilman `--dry-run`-valitsinta muutosten ottamiseksi käyttöön"),
            error_processing_file_parts: ("[warn] Virhe käsiteltäessä tiedostoa ", ": ", ", ohitetaan"),
        },
        Lang::No => I18n {
            about: "CLI-verktøy for å erstatte absolutte Rust-stier med use-setninger (fikser clippy::absolute_paths)",
            path: "Bane til fil eller mappe som skal behandles (søker oppover etter Cargo.toml som standard)",
            dry_run: "Forhåndsvisningsmodus uten å endre filer",
            write: "Endre filer direkte og kjør rustfmt automatisk (standard)",
            check: "Kontrollmodus: avslutt med feilkode hvis stier overskrider grensen (for CI)",
            max_segments: "Maksimalt tillatte stisegmenter før forenkling (standard: 2)",
            keep_segments: "Antall avsluttende segmenter som skal beholdes (standard: 1)",
            allow_crate: "Hviteliste over crates som tillates å beholde absolutte stier",
            extra_crate: "Ekstra kjente crates spesifisert eksplisitt",
            quiet: "Stille modus, skjul endringsdetaljer",
            show: "Visningsmodus, tving utskrift av endringsdetaljer",
            verbose: "Vis detaljerte behandlingslogger",
            no_cache: "Deaktiver trinnvis hurtigbuffer og tving full ny sjekk",
            failed_init_runtime: "Kunne ikke initialisere compio-kjøretid",
            found_exceeding_limit_parts: ("Fant ", " fil(er) med stier som overskrider grensen"),
            can_be_simplified_parts: ("\n", " fil(er) kan forenkles, kjør uten `--dry-run` for å ta i bruk endringer"),
            error_processing_file_parts: ("[warn] Feil under behandling av ", ": ", ", hopper over"),
        },
    }
}

} // verus!
