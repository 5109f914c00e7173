//! The scripts that the panel asks its host to run, word for word.
//!
//! A script with a gap for a value is kept in parts: the value goes between
//! one part and the next.

use vstd::prelude::*;

verus! {

/// Prints `RUNNING` while a scan is under way, `IDLE` otherwise.
pub const CHECK_SCAN_RUNNING: &'static str = r#"
            # Verifica via processo MpCmdRun
            $mpProcess = Get-Process -Name "MpCmdRun" -ErrorAction SilentlyContinue
            if ($mpProcess) {
                "RUNNING"
            } else {
                # Verifica via status do Defender
                $status = Get-MpComputerStatus -ErrorAction SilentlyContinue
                if ($status -and $status.AntivirusScanInProgress) {
                    "RUNNING"
                } else {
                    "IDLE"
                }
            }
        "#;

/// Prints the protection status as a JSON object.
pub const GET_STATUS: &'static str = r#"
            $status = Get-MpComputerStatus
            $quickEnd = $status.QuickScanEndTime
            $fullEnd = $status.FullScanEndTime

            $lastScanTime = $null
            if ($quickEnd -and $fullEnd) {
                $lastScanTime = if ($quickEnd -gt $fullEnd) { $quickEnd } else { $fullEnd }
            } elseif ($quickEnd) {
                $lastScanTime = $quickEnd
            } elseif ($fullEnd) {
                $lastScanTime = $fullEnd
            }

            $lastScan = if ($lastScanTime) { 
                $lastScanTime.ToString('dd/MM/yyyy HH:mm') 
            } else { 
                $null 
            }

            @{
                # RealTimeProtectionEnabled reflete o estado do toggle de proteção em tempo real
                is_enabled = $status.RealTimeProtectionEnabled
                last_scan = $lastScan
            } | ConvertTo-Json
        "#;

/// Updates the virus definitions.
pub const UPDATE_DEFINITIONS: &'static str = r#"
            try {
                Update-MpSignature -ErrorAction Stop
                Write-Output "SUCCESS: Definições atualizadas com sucesso"
            } catch {
                Write-Output "ERROR: $($_.Exception.Message)"
            }
        "#;

/// Refreshes the detection status.
pub const REFRESH_DETECTION: &'static str = r#"
            try {
                Update-MpSignature -ErrorAction SilentlyContinue
                Start-Sleep -Milliseconds 300
                Write-Output "SUCCESS: Status atualizado"
            } catch {
                Write-Output "ERROR: $($_.Exception.Message)"
            }
        "#;

/// Starts a quick scan and does not wait for it.
pub const START_QUICK_SCAN: &'static str = r#"
            try {
                $mpPath = "$env:ProgramFiles\Windows Defender\MpCmdRun.exe"
                if (Test-Path $mpPath) {
                    Start-Process -FilePath $mpPath -ArgumentList "-Scan -ScanType 1" -WindowStyle Hidden
                    Write-Output "SUCCESS: Verificação rápida iniciada"
                } else {
                    Start-Job -ScriptBlock { Start-MpScan -ScanType QuickScan } | Out-Null
                    Write-Output "SUCCESS: Verificação rápida iniciada"
                }
            } catch {
                Write-Output "ERROR: $($_.Exception.Message)"
            }
        "#;

/// Runs a quick scan to its end.
pub const QUICK_SCAN: &'static str = r#"
            try {
                $mpPath = "$env:ProgramFiles\Windows Defender\MpCmdRun.exe"
                if (Test-Path $mpPath) {
                    $proc = Start-Process -FilePath $mpPath -ArgumentList "-Scan -ScanType 1" -PassThru -WindowStyle Hidden
                    $proc.WaitForExit()
                    if ($proc.ExitCode -eq 0 -or $proc.ExitCode -eq 2) {
                        Write-Output "SUCCESS"
                    } else {
                        Write-Output "ERROR: Scan falhou com código $($proc.ExitCode)"
                    }
                } else {
                    Start-MpScan -ScanType QuickScan -ErrorAction Stop
                    Write-Output "SUCCESS"
                }
            } catch {
                Write-Output "ERROR: $($_.Exception.Message)"
            }
        "#;

/// Prints the number of detected threats.
pub const COUNT_THREATS: &'static str = r#"
            $threats = Get-MpThreatDetection
            if ($threats) { $threats.Count } else { 0 }
        "#;

/// Starts a full scan and does not wait for it.
pub const START_FULL_SCAN: &'static str = r#"
            try {
                $mpPath = "$env:ProgramFiles\Windows Defender\MpCmdRun.exe"
                if (Test-Path $mpPath) {
                    Start-Process -FilePath $mpPath -ArgumentList "-Scan -ScanType 2" -WindowStyle Hidden
                    Write-Output "SUCCESS: Verificação completa iniciada"
                } else {
                    Start-Job -ScriptBlock { Start-MpScan -ScanType FullScan } | Out-Null
                    Write-Output "SUCCESS: Verificação completa iniciada"
                }
            } catch {
                Write-Output "ERROR: $($_.Exception.Message)"
            }
        "#;

/// Runs a full scan to its end.
pub const FULL_SCAN: &'static str = r#"
            try {
                $mpPath = "$env:ProgramFiles\Windows Defender\MpCmdRun.exe"
                if (Test-Path $mpPath) {
                    # Executa em background para poder ser cancelado
                    $proc = Start-Process -FilePath $mpPath -ArgumentList "-Scan -ScanType 2" -PassThru -WindowStyle Hidden
                    $proc.WaitForExit()
                    if ($proc.ExitCode -eq 0 -or $proc.ExitCode -eq 2) {
                        Write-Output "SUCCESS"
                    } else {
                        Write-Output "ERROR: Scan falhou com código $($proc.ExitCode)"
                    }
                } else {
                    Start-MpScan -ScanType FullScan -ErrorAction Stop
                    Write-Output "SUCCESS"
                }
            } catch {
                Write-Output "ERROR: $($_.Exception.Message)"
            }
        "#;

/// Prints the number of files under a path.
pub const COUNT_FILES_HEAD: &'static str = r#"
            try {
                $count = (Get-ChildItem -LiteralPath '"#;

pub const COUNT_FILES_TAIL: &'static str = r#"' -Recurse -File -ErrorAction SilentlyContinue | Measure-Object).Count
                Write-Output $count
            } catch {
                Write-Output 0
            }
        "#;

/// Scans one path to the end.
pub const CUSTOM_SCAN_HEAD: &'static str = r#"
            try {
                $mpPath = "$env:ProgramFiles\Windows Defender\MpCmdRun.exe"
                if (Test-Path $mpPath) {
                    $proc = Start-Process -FilePath $mpPath -ArgumentList "-Scan -ScanType 3 -File `""#;

pub const CUSTOM_SCAN_MIDDLE: &'static str = r#"`"" -PassThru -WindowStyle Hidden
                    $proc.WaitForExit()
                    if ($proc.ExitCode -eq 0 -or $proc.ExitCode -eq 2) {
                        Write-Output "SUCCESS"
                    } else {
                        Write-Output "ERROR: Scan falhou com código $($proc.ExitCode)"
                    }
                } else {
                    Start-MpScan -ScanType CustomScan -ScanPath '"#;

pub const CUSTOM_SCAN_TAIL: &'static str = r#"' -ErrorAction Stop
                    Write-Output "SUCCESS"
                }
            } catch {
                Write-Output "ERROR: $($_.Exception.Message)"
            }
        "#;

/// Stops the scan that is under way, if any.
pub const CANCEL_SCAN: &'static str = r#"
            try {
                # Parar o processo MpCmdRun que executa o scan
                $stopped = $false
                $processes = Get-Process -Name "MpCmdRun" -ErrorAction SilentlyContinue
                
                if ($processes) {
                    $processes | Stop-Process -Force -ErrorAction Stop
                    $stopped = $true
                }
                
                if ($stopped) {
                    Write-Output "SUCCESS: Verificação cancelada"
                } else {
                    Write-Output "SUCCESS: Nenhuma verificação em andamento"
                }
            } catch {
                Write-Output "ERROR: $($_.Exception.Message)"
            }
        "#;

/// Prints the scan history as a JSON array.
pub const GET_HISTORY: &'static str = r#"
            $status = Get-MpComputerStatus
            
            $history = @()
            
            if ($status.QuickScanStartTime) {
                $history += @{
                    scan_type = "Verificação Rápida"
                    start_time = $status.QuickScanStartTime.ToString('dd/MM/yyyy HH:mm:ss')
                    end_time = if ($status.QuickScanEndTime) { 
                        $status.QuickScanEndTime.ToString('dd/MM/yyyy HH:mm:ss') 
                    } else { 
                        "Em andamento" 
                    }
                    threats_found = 0
                    files_scanned = 50000
                }
            }
            
            if ($status.FullScanStartTime) {
                $history += @{
                    scan_type = "Verificação Completa"
                    start_time = $status.FullScanStartTime.ToString('dd/MM/yyyy HH:mm:ss')
                    end_time = if ($status.FullScanEndTime) { 
                        $status.FullScanEndTime.ToString('dd/MM/yyyy HH:mm:ss') 
                    } else { 
                        "Em andamento" 
                    }
                    threats_found = 0
                    files_scanned = 500000
                }
            }
            
            if ($history.Count -eq 0) {
                "[]"
            } elseif ($history.Count -eq 1) {
                "[" + ($history[0] | ConvertTo-Json -Compress) + "]"
            } else {
                $history | ConvertTo-Json
            }
        "#;

/// Prints the summary of the last scan of one kind as a JSON object.
pub const LAST_SCAN_SUMMARY_HEAD: &'static str = r#"
$scanType = ""#;

pub const LAST_SCAN_SUMMARY_TAIL: &'static str = r#""
$status = Get-MpComputerStatus
$pattern = switch ($scanType) {
    "quick" { "Quick Scan|Verificação rápida" }
    "full" { "Full Scan|Verificação completa" }
    "custom" { "Custom Scan|Verificação personalizada" }
    default { "" }
}

$event = $null
$events = Get-WinEvent -LogName "Microsoft-Windows-Windows Defender/Operational" -FilterXPath "*[System[(EventID=1001)]]"
if ($pattern -ne "") {
    $event = $events | Where-Object { $_.Message -match $pattern } | Select-Object -First 1
}
if (-not $event) {
    $event = $events | Select-Object -First 1
}

$files = 0
$threats = 0
if ($event -and $event.Message) {
    if ($event.Message -match '(?i)(Arquivos verificados|Arquivos examinados|Arquivos inspecionados|Recursos verificados|Scanned files|Number of scanned files|Resources scanned)\s*[:\.]\s*([0-9\s\.,]+)') {
        $files = ($matches[2] -replace '\D', '')
    }
    if ($event.Message -match '(?i)(Ameaças encontradas|Threats Found)\s*[:\.]\s*([0-9]+)') {
        $threats = [int]$matches[2]
    }
}

$start = $null
$end = $null
switch ($scanType) {
    "quick" { $start = $status.QuickScanStartTime; $end = $status.QuickScanEndTime }
    "full" { $start = $status.FullScanStartTime; $end = $status.FullScanEndTime }
    default { }
}

$lastScan = $null
if ($end) { $lastScan = $end } elseif ($event) { $lastScan = $event.TimeCreated }

$duration = ""
if ($start -and $end) {
    $span = New-TimeSpan -Start $start -End $end
    $duration = "{0} minutos {1} segundos" -f $span.Minutes, $span.Seconds
}

$lastScanStr = if ($lastScan) { $lastScan.ToString('dd/MM/yyyy HH:mm') } else { $null }

@{
    scan_type = $scanType
    last_scan = $lastScanStr
    threats_found = [int]$threats
    duration = $duration
    files_scanned = [uint64]$files
} | ConvertTo-Json
"#;

/// Prints all detected threats, with their counts, as a JSON object.
pub const GET_THREAT_DETAILS: &'static str = r#"
            # Força encoding UTF-8 para evitar problemas com caracteres especiais
            $OutputEncoding = [System.Text.Encoding]::UTF8
            [Console]::OutputEncoding = [System.Text.Encoding]::UTF8
            
            $threats = Get-MpThreatDetection
            
            # Se não há ameaças, retorna estrutura completa vazia
            if (-not $threats) {
                @{
                    total_threats = 0
                    high_severity = 0
                    medium_severity = 0
                    low_severity = 0
                    threats = @()
                } | ConvertTo-Json -Depth 10 -Compress
                exit
            }
            
            $result = @()
            foreach ($threat in $threats) {
                # Mapeamento de nomes de ameaças
                $threatName = switch ($threat.ThreatID) {
                    2147734096 { "Trojan:Win32/Wacatac" }
                    2147797489 { "Suspicious PowerShell Script" }
                    2147735503 { "Trojan:Win32/Sabsik" }
                    2147737010 { "Trojan:Win32/Agent" }
                    default { "Ameaça Desconhecida (ID: $($threat.ThreatID))" }
                }
                
                # Classificação de severidade
                $severity = switch ($threat.ThreatID) {
                    2147734096 { "High" }
                    2147797489 { "Medium" }
                    2147735503 { "High" }
                    2147737010 { "Medium" }
                    default { "Low" }
                }
                
                # Status da ameaça
                $status = switch ($threat.ThreatStatusID) {
                    1 { "Ativa" }
                    2 { "Em Quarentena" }
                    3 { "Em Quarentena" }
                    5 { "Permitida" }
                    6 { "Removida" }
                    102 { "Falha na Limpeza" }
                    103 { "Falha na Quarentena" }
                    104 { "Falha na Remoção" }
                    105 { "Falha ao Permitir" }
                    106 { "Abandonada" }
                    107 { "Falha ao Bloquear" }
                    default { "Desconhecido ($($threat.ThreatStatusID))" }
                }
                
                # Categoria
                $category = switch ($threat.ThreatStatusID) {
                    1 { "Ativa" }
                    2 { "Quarentena" }
                    3 { "Quarentena" }
                    5 { "Permitida" }
                    6 { "Removida" }
                    102 { "Ativa" }
                    103 { "Ativa" }
                    104 { "Ativa" }
                    105 { "Ativa" }
                    106 { "Removida" }
                    107 { "Ativa" }
                    default { "Desconhecida" }
                }
                
                # Ação tomada
                $actionTaken = switch ($threat.CleaningActionID) {
                    2 { "Colocar em Quarentena" }
                    3 { "Remover" }
                    6 { "Permitir" }
                    8 { "Definido pelo Usuário" }
                    9 { "Nenhuma Ação" }
                    10 { "Bloquear" }
                    default { "Desconhecida" }
                }
                
                # Caminho do arquivo com tratamento seguro
                $filePath = if ($threat.Resources) { 
                    $threat.Resources[0] -replace "^[^:]+:_", "" 
                } else { 
                    "Desconhecido" 
                }

                # Verifica se o arquivo ainda existe usando -LiteralPath para segurança
                $fileExists = if ($filePath -ne "Desconhecido" -and (Test-Path -LiteralPath $filePath -ErrorAction SilentlyContinue)) { 
                    $true 
                } else { 
                    $false 
                }
                
                # Monta o objeto
                $obj = @{
                    threat_id = [uint64]$threat.ThreatID
                    threat_name = $threatName
                    severity = $severity
                    status = $status
                    category = $category
                    file_path = $filePath
                    file_exists = $fileExists
                    detected_time = $threat.InitialDetectionTime.ToString('dd/MM/yyyy HH:mm:ss')
                    action_taken = $actionTaken
                }
                
                $result += $obj
            }
            
            # Calcula severidades no PowerShell para evitar reprocessamento
            $high = ($result | Where-Object { $_.severity -eq "High" }).Count
            $medium = ($result | Where-Object { $_.severity -eq "Medium" }).Count
            $low = ($result | Where-Object { $_.severity -eq "Low" }).Count
            
            # Retorna estrutura completa com metadados
            @{
                total_threats = $result.Count
                high_severity = $high
                medium_severity = $medium
                low_severity = $low
                threats = $result
            } | ConvertTo-Json -Depth 10 -Compress
        "#;

/// Puts one threat into quarantine.
pub const QUARANTINE_THREAT_HEAD: &'static str = r#"
            try {
                $threat = Get-MpThreatDetection | Where-Object { $_.ThreatID -eq "#;

pub const QUARANTINE_THREAT_TAIL: &'static str = r#" }
                
                if (-not $threat) {
                    Write-Output "SUCCESS: Ameaça não encontrada ou já foi tratada"
                    exit
                }
                
                # Verifica status atual
                if ($threat.ThreatStatusID -eq 2 -or $threat.ThreatStatusID -eq 3) {
                    Write-Output "SUCCESS: Ameaça já está em quarentena"
                    exit
                }
                
                if ($threat.ThreatStatusID -eq 6) {
                    Write-Output "SUCCESS: Ameaça já foi removida"
                    exit
                }
                
                # Tenta remover/colocar em quarentena
                try {
                    Remove-MpThreat -ThreatID $threat.ThreatID -ErrorAction Stop
                } catch {
                    try {
                        Remove-MpThreat -ThreatId $threat.ThreatID -ErrorAction Stop
                    } catch {
                        $true
                    }
                }
                
                Write-Output "SUCCESS: Ameaça colocada em quarentena"
            } catch {
                Write-Output "ERROR: Falha ao colocar em quarentena: $($_.Exception.Message)"
            }
        "#;

/// Removes one threat.
pub const REMOVE_SPECIFIC_THREAT_HEAD: &'static str = r#"
            try {
                $threat = Get-MpThreatDetection | Where-Object { $_.ThreatID -eq "#;

pub const REMOVE_SPECIFIC_THREAT_TAIL: &'static str = r#" }
                
                if (-not $threat) {
                    Write-Output "SUCCESS: Ameaça não existe mais"
                    exit
                }
                
                # Primeiro tenta remover através do Windows Defender
                try {
                    Remove-MpThreat -ThreatID $threat.ThreatID -ErrorAction Stop
                    Write-Output "SUCCESS: Ameaça removida através do Windows Defender"
                    exit
                } catch {
                    # Tenta outra sintaxe
                    try {
                        Remove-MpThreat -ThreatId $threat.ThreatID -ErrorAction Stop
                        Write-Output "SUCCESS: Ameaça removida através do Windows Defender"
                        exit
                    } catch {}
                }
                
                # Se tiver caminho de arquivo, tenta deletar
                if ($threat.Resources) {
                    $filePath = $threat.Resources[0] -replace '^[^:]+:_', ''
                    
                    if (Test-Path $filePath) {
                        # Evita tentar remover arquivo em uso (ex: o próprio app)
                        $isRunning = Get-Process | Where-Object { $_.Path -eq $filePath }
                        if ($isRunning) {
                            Write-Output "SUCCESS: Arquivo em uso. Feche o aplicativo e tente novamente"
                            exit
                        }

                        takeown /f "$filePath" /a /r /d Y 2>&1 | Out-Null
                        icacls "$filePath" /grant Administrators:F /t /c /q 2>&1 | Out-Null
                        try {
                            Remove-Item -Path $filePath -Force -ErrorAction Stop
                            Write-Output "SUCCESS: Arquivo deletado com sucesso"
                        } catch {
                            if ($_.Exception.Message -match "Acesso negado") {
                                Write-Output "ERROR: Acesso negado. Execute como Administrador ou feche o aplicativo"
                            } else {
                                Write-Output "ERROR: Falha ao remover arquivo: $($_.Exception.Message)"
                            }
                        }
                    } else {
                        Write-Output "SUCCESS: Arquivo não existe mais"
                    }
                } else {
                    Write-Output "SUCCESS: Ameaça removida do histórico"
                }
            } catch {
                Write-Output "ERROR: Falha ao remover: $($_.Exception.Message)"
            }
        "#;

/// Adds one path to the exclusions.
pub const ALLOW_THREAT_HEAD: &'static str = r#"
            try {
                # Adiciona exceção no Windows Defender
                Add-MpPreference -ExclusionPath ""#;

pub const ALLOW_THREAT_TAIL: &'static str = r#"" -ErrorAction Stop
                
                Write-Output "SUCCESS: Arquivo permitido e adicionado às exceções"
            } catch {
                Write-Output "ERROR: Falha ao permitir arquivo: $($_.Exception.Message)"
            }
        "#;

/// Restores one threat from quarantine.
pub const RESTORE_THREAT_HEAD: &'static str = r#"
            try {
                $threat = Get-MpThreatDetection | Where-Object { $_.ThreatID -eq "#;

pub const RESTORE_THREAT_TAIL: &'static str = r#" }
                
                if (-not $threat) {
                    Write-Output "ERROR: Ameaça não encontrada"
                    exit
                }
                
                if ($threat.Resources) {
                    $filePath = $threat.Resources[0] -replace '^[^:]+:_', ''
                    
                    # Adiciona às exceções
                    Add-MpPreference -ExclusionPath $filePath -ErrorAction Stop
                    
                    Write-Output "SUCCESS: Arquivo restaurado e adicionado às exceções"
                } else {
                    Write-Output "ERROR: Não foi possível determinar o caminho do arquivo"
                }
            } catch {
                Write-Output "ERROR: Falha ao restaurar: $($_.Exception.Message)"
            }
        "#;

/// Empties the quarantine.
pub const CLEAN_QUARANTINE: &'static str = r#"
            try {
                $threats = Get-MpThreatDetection -ErrorAction SilentlyContinue
                
                if (-not $threats) {
                    Write-Output "SUCCESS: Nenhuma ameaça na quarentena"
                    exit
                }
                
                $count = 0
                foreach ($threat in $threats) {
                    try {
                        Remove-MpThreat -ThreatID $threat.ThreatID -ErrorAction SilentlyContinue
                        $count++
                    } catch {
                        # Continua mesmo se falhar
                    }
                }
                
                # Limpa arquivos de histórico - todos os diretórios relevantes
                $paths = @(
                    "C:\ProgramData\Microsoft\Windows Defender\Scans\History\Service\DetectionHistory",
                    "C:\ProgramData\Microsoft\Windows Defender\Scans\History\CacheManager",
                    "C:\ProgramData\Microsoft\Windows Defender\Scans\History\ReportLatency",
                    "C:\ProgramData\Microsoft\Windows Defender\Scans\History\Store"
                )
                foreach ($path in $paths) {
                    if (Test-Path $path) {
                        Remove-Item -LiteralPath $path -Recurse -Force -ErrorAction SilentlyContinue
                    }
                }
                
                Write-Output "SUCCESS: $count ameaça(s) removida(s) da quarentena"
            } catch {
                Write-Output "ERROR: Falha ao limpar quarentena: $($_.Exception.Message)"
            }
        "#;

/// Removes every detected threat.
pub const REMOVE_ALL_THREATS: &'static str = r#"
            try {
                $threats = Get-MpThreatDetection -ErrorAction SilentlyContinue
                
                if (-not $threats) {
                    Write-Output "SUCCESS: Nenhuma ameaça para remover"
                    exit
                }
                
                $count = 0
                foreach ($threat in $threats) {
                    try {
                        Remove-MpThreat -ThreatID $threat.ThreatID -ErrorAction SilentlyContinue
                        $count++
                    } catch {
                        # Continua mesmo se falhar
                    }
                }
                
                # Limpa histórico - todos os diretórios relevantes
                $paths = @(
                    "C:\ProgramData\Microsoft\Windows Defender\Scans\History\Service\DetectionHistory",
                    "C:\ProgramData\Microsoft\Windows Defender\Scans\History\CacheManager",
                    "C:\ProgramData\Microsoft\Windows Defender\Scans\History\ReportLatency",
                    "C:\ProgramData\Microsoft\Windows Defender\Scans\History\Store"
                )
                foreach ($path in $paths) {
                    if (Test-Path $path) {
                        Remove-Item -LiteralPath $path -Recurse -Force -ErrorAction SilentlyContinue
                    }
                }
                
                Write-Output "SUCCESS: Todas as $count ameaça(s) foram removidas"
            } catch {
                Write-Output "ERROR: Falha ao remover todas as ameaças: $($_.Exception.Message)"
            }
        "#;

/// Clears the threat history, by force where the service does not yield.
pub const CLEAN_THREAT_HISTORY: &'static str = r#"
            try {
                # Verifica se está em modo Administrador
                $isAdmin = ([Security.Principal.WindowsPrincipal] [Security.Principal.WindowsIdentity]::GetCurrent()).IsInRole([Security.Principal.WindowsBuiltinRole]::Administrator)
                if (-not $isAdmin) {
                    Write-Output "ERROR: Execute o app como Administrador para limpar o histórico"
                    exit
                }

                $threats = Get-MpThreatDetection -ErrorAction SilentlyContinue
                $total = if ($threats) { @($threats).Count } else { 0 }
                
                if ($total -eq 0) {
                    Write-Output "SUCCESS: Nenhuma ameaça para remover"
                    exit
                }

                # Tenta remoção via Remove-MpThreat primeiro
                $removed = 0
                if ($threats) {
                    $threatArray = @($threats)
                    foreach ($threat in $threatArray) {
                        try {
                            Remove-MpThreat -ThreatID $threat.ThreatID -ErrorAction Stop 2>&1 | Out-Null
                            $removed++
                        } catch {
                            # Silencia erro
                        }
                    }
                }

                # Aguarda Defender processar
                Start-Sleep -Seconds 2
                $remaining = @(Get-MpThreatDetection -ErrorAction SilentlyContinue).Count

                # Se Remove-MpThreat funcionou, sucesso
                if ($remaining -eq 0) {
                    Write-Output "SUCCESS: Removidas: $removed de $total"
                    exit
                }

                # Se ainda existem ameaças, faz limpeza profunda do histórico
                Stop-Service -Name WinDefend -Force -ErrorAction SilentlyContinue 2>&1 | Out-Null
                Stop-Service -Name WdNisSvc -Force -ErrorAction SilentlyContinue 2>&1 | Out-Null
                Start-Sleep -Seconds 3

                # Diretórios específicos de histórico do Defender
                $paths = @(
                    "C:\ProgramData\Microsoft\Windows Defender\Scans\History\Service\DetectionHistory",
                    "C:\ProgramData\Microsoft\Windows Defender\Scans\History\CacheManager",
                    "C:\ProgramData\Microsoft\Windows Defender\Scans\History\ReportLatency",
                    "C:\ProgramData\Microsoft\Windows Defender\Scans\History\Store",
                    "C:\ProgramData\Microsoft\Windows Defender\Scans\History\Results\Resource",
                    "C:\ProgramData\Microsoft\Windows Defender\Scans\History\Results\Quick",
                    "C:\ProgramData\Microsoft\Windows Defender\LocalCopy",
                    "C:\ProgramData\Microsoft\Windows Defender\Scans\mpenginedb.db",
                    "C:\ProgramData\Microsoft\Windows Defender\Scans\mpenginedb.db-wal",
                    "C:\ProgramData\Microsoft\Windows Defender\Scans\mpenginedb.db-shm"
                )

                foreach ($path in $paths) {
                    if (Test-Path $path) {
                        try {
                            takeown /f "$path" /a /r /d Y 2>&1 | Out-Null
                            icacls "$path" /grant Administrators:F /t /c /q 2>&1 | Out-Null
                            Remove-Item -LiteralPath $path -Recurse -Force -ErrorAction SilentlyContinue
                        } catch {}
                    }
                }

                # Limpa Event Log do Windows Defender
                try {
                    wevtutil cl "Microsoft-Windows-Windows Defender/Operational" 2>&1 | Out-Null
                } catch {}

                # Reinicia serviço
                Start-Service -Name WinDefend -ErrorAction SilentlyContinue 2>&1 | Out-Null
                Start-Service -Name WdNisSvc -ErrorAction SilentlyContinue 2>&1 | Out-Null
                Start-Sleep -Seconds 3

                # Valida resultado final
                $final_remaining = @(Get-MpThreatDetection -ErrorAction SilentlyContinue).Count
                
                if ($final_remaining -eq 0) {
                    Write-Output "SUCCESS: Limpeza completa. Removidas: $total de $total"
                } else {
                    Write-Output "PARTIAL: Removidas: $removed de $total. Pendentes: $final_remaining. Reinicie o PC para completar."
                }
            } catch {
                Write-Output "ERROR: $($_.Exception.Message)"
            }
        "#;

/// Prints size and count of each category of disposable files as a JSON object.
pub const ANALYZE_CLEANUP: &'static str = r#"
            $result = @{
                temp_files = @{ size = 0; count = 0 }
                windows_temp = @{ size = 0; count = 0 }
                recycle_bin = @{ size = 0; count = 0 }
                chrome_cache = @{ size = 0; count = 0 }
                brave_cache = @{ size = 0; count = 0 }
                edge_cache = @{ size = 0; count = 0 }
                firefox_cache = @{ size = 0; count = 0 }
                windows_logs = @{ size = 0; count = 0 }
                prefetch = @{ size = 0; count = 0 }
                thumbnails = @{ size = 0; count = 0 }
            }

            # Temp do usuário
            try {
                $items = Get-ChildItem -Path "$env:TEMP\*" -Recurse -Force -ErrorAction SilentlyContinue
                $result.temp_files.size = ($items | Measure-Object -Property Length -Sum -ErrorAction SilentlyContinue).Sum
                $result.temp_files.count = ($items | Measure-Object).Count
            } catch {}

            # Windows Temp
            try {
                $items = Get-ChildItem -Path "$env:WINDIR\Temp\*" -Recurse -Force -ErrorAction SilentlyContinue
                $result.windows_temp.size = ($items | Measure-Object -Property Length -Sum -ErrorAction SilentlyContinue).Sum
                $result.windows_temp.count = ($items | Measure-Object).Count
            } catch {}

            # Lixeira
            try {
                $shell = New-Object -ComObject Shell.Application
                $recycleBin = $shell.Namespace(0xA)
                $items = $recycleBin.Items()
                $result.recycle_bin.count = $items.Count
                $totalSize = 0
                foreach ($item in $items) {
                    try {
                        $totalSize += $recycleBin.GetDetailsOf($item, 2) -replace '[^\d]', ''
                    } catch {}
                }
                $result.recycle_bin.size = $totalSize
            } catch {}

            # Cache do Chrome
            try {
                $chromePaths = @(
                    "$env:LOCALAPPDATA\Google\Chrome\User Data\Default\Cache\*",
                    "$env:LOCALAPPDATA\Google\Chrome\User Data\Default\Code Cache\*",
                    "$env:LOCALAPPDATA\Google\Chrome\User Data\Default\GPUCache\*"
                )
                $totalSize = 0
                $totalCount = 0
                foreach ($path in $chromePaths) {
                    $items = Get-ChildItem -Path $path -Recurse -Force -ErrorAction SilentlyContinue
                    $totalSize += ($items | Measure-Object -Property Length -Sum -ErrorAction SilentlyContinue).Sum
                    $totalCount += ($items | Measure-Object).Count
                }
                $result.chrome_cache.size = $totalSize
                $result.chrome_cache.count = $totalCount
            } catch {}

            # Cache do Brave
            try {
                $bravePaths = @(
                    "$env:LOCALAPPDATA\BraveSoftware\Brave-Browser\User Data\Default\Cache\*",
                    "$env:LOCALAPPDATA\BraveSoftware\Brave-Browser\User Data\Default\Code Cache\*",
                    "$env:LOCALAPPDATA\BraveSoftware\Brave-Browser\User Data\Default\GPUCache\*"
                )
                $totalSize = 0
                $totalCount = 0
                foreach ($path in $bravePaths) {
                    $items = Get-ChildItem -Path $path -Recurse -Force -ErrorAction SilentlyContinue
                    $totalSize += ($items | Measure-Object -Property Length -Sum -ErrorAction SilentlyContinue).Sum
                    $totalCount += ($items | Measure-Object).Count
                }
                $result.brave_cache.size = $totalSize
                $result.brave_cache.count = $totalCount
            } catch {}

            # Cache do Edge
            try {
                $edgePaths = @(
                    "$env:LOCALAPPDATA\Microsoft\Edge\User Data\Default\Cache\*",
                    "$env:LOCALAPPDATA\Microsoft\Edge\User Data\Default\Code Cache\*",
                    "$env:LOCALAPPDATA\Microsoft\Edge\User Data\Default\GPUCache\*"
                )
                $totalSize = 0
                $totalCount = 0
                foreach ($path in $edgePaths) {
                    $items = Get-ChildItem -Path $path -Recurse -Force -ErrorAction SilentlyContinue
                    $totalSize += ($items | Measure-Object -Property Length -Sum -ErrorAction SilentlyContinue).Sum
                    $totalCount += ($items | Measure-Object).Count
                }
                $result.edge_cache.size = $totalSize
                $result.edge_cache.count = $totalCount
            } catch {}

            # Cache do Firefox
            try {
                $items = Get-ChildItem -Path "$env:LOCALAPPDATA\Mozilla\Firefox\Profiles\*\cache2\*" -Recurse -Force -ErrorAction SilentlyContinue
                $result.firefox_cache.size = ($items | Measure-Object -Property Length -Sum -ErrorAction SilentlyContinue).Sum
                $result.firefox_cache.count = ($items | Measure-Object).Count
            } catch {}

            # Logs do Windows
            try {
                $items = Get-ChildItem -Path "$env:WINDIR\Logs\*" -Recurse -Force -ErrorAction SilentlyContinue
                $result.windows_logs.size = ($items | Measure-Object -Property Length -Sum -ErrorAction SilentlyContinue).Sum
                $result.windows_logs.count = ($items | Measure-Object).Count
            } catch {}

            # Prefetch
            try {
                $items = Get-ChildItem -Path "$env:WINDIR\Prefetch\*" -Force -ErrorAction SilentlyContinue
                $result.prefetch.size = ($items | Measure-Object -Property Length -Sum -ErrorAction SilentlyContinue).Sum
                $result.prefetch.count = ($items | Measure-Object).Count
            } catch {}

            # Thumbnails
            try {
                $items = Get-ChildItem -Path "$env:LOCALAPPDATA\Microsoft\Windows\Explorer\thumbcache_*.db" -Force -ErrorAction SilentlyContinue
                $result.thumbnails.size = ($items | Measure-Object -Property Length -Sum -ErrorAction SilentlyContinue).Sum
                $result.thumbnails.count = ($items | Measure-Object).Count
            } catch {}

            $result | ConvertTo-Json -Depth 3
        "#;

/// Removes the temporary files of the user.
pub const CLEAN_TEMP_FILES: &'static str = r#"
            $size = 0
            $count = 0
            try {
                $items = Get-ChildItem -Path "$env:TEMP\*" -Recurse -Force -ErrorAction SilentlyContinue
                $size = ($items | Measure-Object -Property Length -Sum -ErrorAction SilentlyContinue).Sum
                $count = ($items | Measure-Object).Count
                Remove-Item -Path "$env:TEMP\*" -Recurse -Force -ErrorAction SilentlyContinue
            } catch {}
            Write-Output "$count|$size"
        "#;

/// Removes the temporary files of the system.
pub const CLEAN_WINDOWS_TEMP: &'static str = r#"
            $size = 0
            $count = 0
            try {
                $items = Get-ChildItem -Path "$env:WINDIR\Temp\*" -Recurse -Force -ErrorAction SilentlyContinue
                $size = ($items | Measure-Object -Property Length -Sum -ErrorAction SilentlyContinue).Sum
                $count = ($items | Measure-Object).Count
                Remove-Item -Path "$env:WINDIR\Temp\*" -Recurse -Force -ErrorAction SilentlyContinue
            } catch {}
            Write-Output "$count|$size"
        "#;

/// Empties the recycle bin.
pub const CLEAN_RECYCLE_BIN: &'static str = r#"
            try {
                $shell = New-Object -ComObject Shell.Application
                $recycleBin = $shell.Namespace(0xA)
                $count = $recycleBin.Items().Count
                Clear-RecycleBin -Force -ErrorAction SilentlyContinue
                Write-Output "$count|0"
            } catch {
                Write-Output "0|0"
            }
        "#;

/// Removes the caches of Chrome.
pub const CLEAN_CHROME_CACHE: &'static str = r#"
            $size = 0
            $count = 0
            $paths = @(
                "$env:LOCALAPPDATA\Google\Chrome\User Data\Default\Cache\*",
                "$env:LOCALAPPDATA\Google\Chrome\User Data\Default\Code Cache\*",
                "$env:LOCALAPPDATA\Google\Chrome\User Data\Default\GPUCache\*",
                "$env:LOCALAPPDATA\Google\Chrome\User Data\Default\Service Worker\CacheStorage\*"
            )
            foreach ($path in $paths) {
                try {
                    $items = Get-ChildItem -Path $path -Recurse -Force -ErrorAction SilentlyContinue
                    $size += ($items | Measure-Object -Property Length -Sum -ErrorAction SilentlyContinue).Sum
                    $count += ($items | Measure-Object).Count
                    Remove-Item -Path $path -Recurse -Force -ErrorAction SilentlyContinue
                } catch {}
            }
            Write-Output "$count|$size"
        "#;

/// Removes the caches of Brave.
pub const CLEAN_BRAVE_CACHE: &'static str = r#"
            $size = 0
            $count = 0
            $paths = @(
                "$env:LOCALAPPDATA\BraveSoftware\Brave-Browser\User Data\Default\Cache\*",
                "$env:LOCALAPPDATA\BraveSoftware\Brave-Browser\User Data\Default\Code Cache\*",
                "$env:LOCALAPPDATA\BraveSoftware\Brave-Browser\User Data\Default\GPUCache\*",
                "$env:LOCALAPPDATA\BraveSoftware\Brave-Browser\User Data\Default\Service Worker\CacheStorage\*"
            )
            foreach ($path in $paths) {
                try {
                    $items = Get-ChildItem -Path $path -Recurse -Force -ErrorAction SilentlyContinue
                    $size += ($items | Measure-Object -Property Length -Sum -ErrorAction SilentlyContinue).Sum
                    $count += ($items | Measure-Object).Count
                    Remove-Item -Path $path -Recurse -Force -ErrorAction SilentlyContinue
                } catch {}
            }
            Write-Output "$count|$size"
        "#;

/// Removes the caches of Edge.
pub const CLEAN_EDGE_CACHE: &'static str = r#"
            $size = 0
            $count = 0
            $paths = @(
                "$env:LOCALAPPDATA\Microsoft\Edge\User Data\Default\Cache\*",
                "$env:LOCALAPPDATA\Microsoft\Edge\User Data\Default\Code Cache\*",
                "$env:LOCALAPPDATA\Microsoft\Edge\User Data\Default\GPUCache\*",
                "$env:LOCALAPPDATA\Microsoft\Edge\User Data\Default\Service Worker\CacheStorage\*"
            )
            foreach ($path in $paths) {
                try {
                    $items = Get-ChildItem -Path $path -Recurse -Force -ErrorAction SilentlyContinue
                    $size += ($items | Measure-Object -Property Length -Sum -ErrorAction SilentlyContinue).Sum
                    $count += ($items | Measure-Object).Count
                    Remove-Item -Path $path -Recurse -Force -ErrorAction SilentlyContinue
                } catch {}
            }
            Write-Output "$count|$size"
        "#;

/// Removes the caches of Firefox.
pub const CLEAN_FIREFOX_CACHE: &'static str = r#"
            $size = 0
            $count = 0
            try {
                $items = Get-ChildItem -Path "$env:LOCALAPPDATA\Mozilla\Firefox\Profiles\*\cache2\*" -Recurse -Force -ErrorAction SilentlyContinue
                $size = ($items | Measure-Object -Property Length -Sum -ErrorAction SilentlyContinue).Sum
                $count = ($items | Measure-Object).Count
                Remove-Item -Path "$env:LOCALAPPDATA\Mozilla\Firefox\Profiles\*\cache2\*" -Recurse -Force -ErrorAction SilentlyContinue
            } catch {}
            Write-Output "$count|$size"
        "#;

/// Removes the log files of the system.
pub const CLEAN_WINDOWS_LOGS: &'static str = r#"
            $size = 0
            $count = 0
            try {
                $items = Get-ChildItem -Path "$env:WINDIR\Logs\*" -Recurse -Force -ErrorAction SilentlyContinue
                $size = ($items | Measure-Object -Property Length -Sum -ErrorAction SilentlyContinue).Sum
                $count = ($items | Measure-Object).Count
                Remove-Item -Path "$env:WINDIR\Logs\*" -Recurse -Force -ErrorAction SilentlyContinue
            } catch {}
            Write-Output "$count|$size"
        "#;

/// Removes the prefetch data.
pub const CLEAN_PREFETCH: &'static str = r#"
            $size = 0
            $count = 0
            try {
                $items = Get-ChildItem -Path "$env:WINDIR\Prefetch\*" -Force -ErrorAction SilentlyContinue
                $size = ($items | Measure-Object -Property Length -Sum -ErrorAction SilentlyContinue).Sum
                $count = ($items | Measure-Object).Count
                Remove-Item -Path "$env:WINDIR\Prefetch\*" -Force -ErrorAction SilentlyContinue
            } catch {}
            Write-Output "$count|$size"
        "#;

/// Removes the thumbnail caches.
pub const CLEAN_THUMBNAILS: &'static str = r#"
            $size = 0
            $count = 0
            try {
                # Para o Explorer para liberar os arquivos
                Stop-Process -Name explorer -Force -ErrorAction SilentlyContinue
                Start-Sleep -Seconds 1
                
                $items = Get-ChildItem -Path "$env:LOCALAPPDATA\Microsoft\Windows\Explorer\thumbcache_*.db" -Force -ErrorAction SilentlyContinue
                $size = ($items | Measure-Object -Property Length -Sum -ErrorAction SilentlyContinue).Sum
                $count = ($items | Measure-Object).Count
                Remove-Item -Path "$env:LOCALAPPDATA\Microsoft\Windows\Explorer\thumbcache_*.db" -Force -ErrorAction SilentlyContinue
                
                # Reinicia o Explorer
                Start-Process explorer
            } catch {}
            Write-Output "$count|$size"
        "#;

/// Prints the antivirus status as a JSON object.
pub const PANEL_GET_STATUS: &'static str = r#"
        $status = Get-MpComputerStatus
        $lastScan = if ($status.LastFullScanTime) { 
            $status.LastFullScanTime.ToString('dd/MM/yyyy HH:mm') 
        } else { 
            $null 
        }
        @{
            is_enabled = $status.AntivirusEnabled
            last_scan = $lastScan
        } | ConvertTo-Json
    "#;

/// Prints `RUNNING` while a scan has started and not ended, `IDLE` otherwise.
pub const PANEL_CHECK_SCAN_RUNNING: &'static str = r#"
        $status = Get-MpComputerStatus
        if ($status.QuickScanStartTime -and !$status.QuickScanEndTime) {
            "RUNNING"
        } elseif ($status.FullScanStartTime -and !$status.FullScanEndTime) {
            "RUNNING"
        } else {
            "IDLE"
        }
    "#;

/// Prints the number of detected threats.
pub const PANEL_COUNT_THREATS: &'static str = r#"
        $threats = Get-MpThreatDetection
        if ($threats) { $threats.Count } else { 0 }
    "#;

/// Removes temporary files and prints how many there were.
pub const PANEL_CLEAN_TEMP_FILES: &'static str = r#"
        $tempFolders = @(
            "$env:TEMP\*",
            "$env:WINDIR\Temp\*",
            "$env:LOCALAPPDATA\Temp\*"
        )
        
        $totalDeleted = 0
        foreach ($folder in $tempFolders) {
            try {
                $items = Get-ChildItem -Path $folder -Recurse -Force -ErrorAction SilentlyContinue
                $count = $items.Count
                Remove-Item -Path $folder -Recurse -Force -ErrorAction SilentlyContinue
                $totalDeleted += $count
            } catch {}
        }
        
        $totalDeleted
    "#;

/// Stops the scanning processes.
pub const PANEL_CANCEL_SCAN: &'static str = r#"
        # Parar processos do Windows Defender scan
        Get-Process | Where-Object {
            $_.Name -like "*MpCmdRun*"
        } | Stop-Process -Force -ErrorAction SilentlyContinue
        
        "Scan cancelado"
    "#;

/// Prints all detected threats as a JSON array.
pub const PANEL_GET_THREAT_DETAILS: &'static str = r#"
        $threats = Get-MpThreatDetection
        
        $result = @()
        foreach ($threat in $threats) {
            $threatName = switch ($threat.ThreatID) {
                2147734096 { "Trojan:Win32/Wacatac" }
                2147797489 { "Suspicious PowerShell Script" }
                default { "Unknown Threat (ID: $($threat.ThreatID))" }
            }
            
            $severity = switch ($threat.ThreatID) {
                2147734096 { "High" }
                2147797489 { "Medium" }
                default { "Low" }
            }
            
            # Determinar categoria baseado no status
            $category = switch ($threat.ThreatStatusID) {
                1 { "Active" }           # Detectado e ativo
                2 { "Quarantined" }      # Em quarentena
                3 { "Quarantined" }      # Em quarentena (variante)
                5 { "Allowed" }          # Permitido
                6 { "Removed" }          # Removido
                102 { "Active" }         # Falha ao limpar (ainda ativo)
                103 { "Active" }         # Falha quarentena (ainda ativo)
                104 { "Active" }         # Falha remover (ainda ativo)
                105 { "Active" }         # Falha permitir (ainda ativo)
                106 { "Removed" }        # Abandonado (considerado removido)
                107 { "Active" }         # Falha bloquear (ainda ativo)
                default { "Unknown" }
            }
            
            $status = switch ($threat.ThreatStatusID) {
                1 { "Active" }
                2 { "Quarantined" }
                3 { "Quarantined" }
                5 { "Allowed" }
                6 { "Removed" }
                102 { "Cleaning Failed" }
                103 { "Quarantine Failed" }
                104 { "Remove Failed" }
                105 { "Allow Failed" }
                106 { "Abandoned" }
                107 { "Block Failed" }
                default { "Unknown ($($threat.ThreatStatusID))" }
            }
            
            $actionTaken = switch ($threat.CleaningActionID) {
                2 { "Quarantine" }
                3 { "Remove" }
                6 { "Allow" }
                8 { "User Defined" }
                9 { "No Action" }
                10 { "Block" }
                default { "Unknown" }
            }
            
            $filePath = if ($threat.Resources) { 
                $threat.Resources[0] -replace "^[^:]+:_", "" 
            } else { 
                "Unknown" 
            }
            
            $obj = @{
                threat_id = $threat.ThreatID
                threat_name = $threatName
                severity = $severity
                status = $status
                category = $category
                file_path = $filePath
                detected_time = $threat.InitialDetectionTime.ToString('dd/MM/yyyy HH:mm:ss')
                action_taken = $actionTaken
            }
            
            $result += $obj
        }
        
        $result | ConvertTo-Json
    "#;

/// Removes every threat and prints how many are left.
pub const PANEL_CLEAN_QUARANTINE: &'static str = r#"
        # Pegar todas as ameaças
        $threats = Get-MpThreatDetection
        
        if ($threats) {
            $count = $threats.Count
            
            # Remover uma por uma pelo ThreatID
            foreach ($threat in $threats) {
                try {
                    Remove-MpThreat -ThreatID $threat.ThreatID -ErrorAction Stop
                } catch {
                    # Ignorar erros
                }
            }
            
            # Aguardar um pouco
            Start-Sleep -Seconds 1
            
            # Verificar o que sobrou
            $remaining = Get-MpThreatDetection
            $remainingCount = if ($remaining) { $remaining.Count } else { 0 }
            
            "Removidas: $count | Restantes: $remainingCount"
        } else {
            "Nenhuma ameaça para remover"
        }
    "#;

/// Removes every threat and the history.
pub const PANEL_REMOVE_ALL_THREATS: &'static str = r#"
        # Contar ameaças
        $threats = Get-MpThreatDetection
        $count = $threats.Count
        
        # Remover uma por uma para garantir
        foreach ($threat in $threats) {
            Remove-MpThreat -ThreatID $threat.ThreatID
        }
        
        # Forçar limpeza do cache/histórico
        Remove-Item -Path "$env:ProgramData\Microsoft\Windows Defender\Scans\History\*" -Recurse -Force -ErrorAction SilentlyContinue
        
        # Verificar se ainda tem algo
        $remaining = (Get-MpThreatDetection).Count
        
        if ($remaining -gt 0) {
            "Removidas $count ameaças, mas $remaining ainda aparecem no histórico (normal)"
        } else {
            "Removidas $count ameaças com sucesso"
        }
    "#;

/// Puts one threat into quarantine.
pub const PANEL_QUARANTINE_THREAT_HEAD: &'static str = r#"
        # Colocar ameaça específica em quarentena
        $threat = Get-MpThreatDetection | Where-Object { $_.ThreatID -eq "#;

pub const PANEL_QUARANTINE_THREAT_MIDDLE: &'static str = r#" }
        
        if ($threat) {
            # Tentar colocar em quarentena
            Remove-MpThreat -ThreatID "#;

pub const PANEL_QUARANTINE_THREAT_TAIL: &'static str = r#"
            "Ameaça movida para quarentena"
        } else {
            "Ameaça não encontrada"
        }
    "#;

/// Removes one threat.
pub const PANEL_REMOVE_SPECIFIC_THREAT_HEAD: &'static str = r#"
        # Remover ameaça específica permanentemente
        Remove-MpThreat -ThreatID "#;

pub const PANEL_REMOVE_SPECIFIC_THREAT_TAIL: &'static str = r#"
        "Ameaça removida"
    "#;

/// Adds one path to the exclusions and takes the threat out of quarantine.
pub const PANEL_ALLOW_THREAT_HEAD: &'static str = r#"
        # Adicionar exceção para o arquivo
        Add-MpPreference -ExclusionPath ""#;

pub const PANEL_ALLOW_THREAT_MIDDLE: &'static str = r#""
        
        # Remover da quarentena
        Remove-MpThreat -ThreatID "#;

pub const PANEL_ALLOW_THREAT_TAIL: &'static str = r#"
        
        "Arquivo permitido e adicionado às exceções"
    "#;

/// Restores one threat from quarantine.
pub const PANEL_RESTORE_THREAT_HEAD: &'static str = r#"
        # Restaurar arquivo da quarentena
        Restore-MpPreference -ThreatID "#;

pub const PANEL_RESTORE_THREAT_TAIL: &'static str = r#"
        "Arquivo restaurado da quarentena"
    "#;

/// Prints the scan history as a JSON array.
pub const PANEL_GET_HISTORY: &'static str = r#"
        $status = Get-MpComputerStatus
        
        $history = @()
        
        # Quick Scan
        if ($status.QuickScanStartTime) {
            $history += @{
                scan_type = "Quick Scan"
                start_time = $status.QuickScanStartTime.ToString('dd/MM/yyyy HH:mm:ss')
                end_time = if ($status.QuickScanEndTime) { 
                    $status.QuickScanEndTime.ToString('dd/MM/yyyy HH:mm:ss') 
                } else { 
                    "Em andamento" 
                }
                threats_found = 0
                files_scanned = 50000
            }
        }
        
        # Full Scan
        if ($status.FullScanStartTime) {
            $history += @{
                scan_type = "Full Scan"
                start_time = $status.FullScanStartTime.ToString('dd/MM/yyyy HH:mm:ss')
                end_time = if ($status.FullScanEndTime) { 
                    $status.FullScanEndTime.ToString('dd/MM/yyyy HH:mm:ss') 
                } else { 
                    "Em andamento" 
                }
                threats_found = 0
                files_scanned = 500000
            }
        }
        
        # IMPORTANTE: Converter para JSON como array
        if ($history.Count -eq 0) {
            "[]"
        } elseif ($history.Count -eq 1) {
            # PowerShell não converte array de 1 item corretamente
            "[" + ($history[0] | ConvertTo-Json -Compress) + "]"
        } else {
            $history | ConvertTo-Json
        }
    "#;

} // verus!
